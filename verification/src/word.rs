//! The characters that make up a word: letters, digits, marks that join
//! them, and the underscore.

use vstd::prelude::*;

verus! {

/// The word characters from U+0030 to U+085B.
pub open spec fn word_code_0(code: u32) -> bool {
    (48 <= code && code <= 57) || (65 <= code && code <= 90) || code == 95 ||
    (97 <= code && code <= 122) || code == 170 || code == 181 || code == 186 ||
    (192 <= code && code <= 214) || (216 <= code && code <= 246) ||
    (248 <= code && code <= 705) || (710 <= code && code <= 721) ||
    (736 <= code && code <= 740) || code == 748 || code == 750 ||
    (768 <= code && code <= 884) || (886 <= code && code <= 887) ||
    (890 <= code && code <= 893) || code == 895 || code == 902 ||
    (904 <= code && code <= 906) || code == 908 || (910 <= code && code <= 929) ||
    (931 <= code && code <= 1013) || (1015 <= code && code <= 1153) ||
    (1155 <= code && code <= 1327) || (1329 <= code && code <= 1366) || code == 1369 ||
    (1377 <= code && code <= 1415) || (1425 <= code && code <= 1469) || code == 1471 ||
    (1473 <= code && code <= 1474) || (1476 <= code && code <= 1477) || code == 1479 ||
    (1488 <= code && code <= 1514) || (1520 <= code && code <= 1522) ||
    (1552 <= code && code <= 1562) || (1568 <= code && code <= 1641) ||
    (1646 <= code && code <= 1747) || (1749 <= code && code <= 1756) ||
    (1759 <= code && code <= 1768) || (1770 <= code && code <= 1788) || code == 1791 ||
    (1808 <= code && code <= 1866) || (1869 <= code && code <= 1969) ||
    (1984 <= code && code <= 2037) || code == 2042 || (2048 <= code && code <= 2093) ||
    (2112 <= code && code <= 2139)
}

/// Whether `code` is a word character from U+0030 to U+085B.
fn is_word_code_0(code: u32) -> (r: bool)
    ensures
        r == word_code_0(code),
{
    (48 <= code && code <= 57) || (65 <= code && code <= 90) || code == 95 ||
    (97 <= code && code <= 122) || code == 170 || code == 181 || code == 186 ||
    (192 <= code && code <= 214) || (216 <= code && code <= 246) ||
    (248 <= code && code <= 705) || (710 <= code && code <= 721) ||
    (736 <= code && code <= 740) || code == 748 || code == 750 ||
    (768 <= code && code <= 884) || (886 <= code && code <= 887) ||
    (890 <= code && code <= 893) || code == 895 || code == 902 ||
    (904 <= code && code <= 906) || code == 908 || (910 <= code && code <= 929) ||
    (931 <= code && code <= 1013) || (1015 <= code && code <= 1153) ||
    (1155 <= code && code <= 1327) || (1329 <= code && code <= 1366) || code == 1369 ||
    (1377 <= code && code <= 1415) || (1425 <= code && code <= 1469) || code == 1471 ||
    (1473 <= code && code <= 1474) || (1476 <= code && code <= 1477) || code == 1479 ||
    (1488 <= code && code <= 1514) || (1520 <= code && code <= 1522) ||
    (1552 <= code && code <= 1562) || (1568 <= code && code <= 1641) ||
    (1646 <= code && code <= 1747) || (1749 <= code && code <= 1756) ||
    (1759 <= code && code <= 1768) || (1770 <= code && code <= 1788) || code == 1791 ||
    (1808 <= code && code <= 1866) || (1869 <= code && code <= 1969) ||
    (1984 <= code && code <= 2037) || code == 2042 || (2048 <= code && code <= 2093) ||
    (2112 <= code && code <= 2139)
}

/// The word characters from U+08A0 to U+0B03.
pub open spec fn word_code_1(code: u32) -> bool {
    (2208 <= code && code <= 2228) || (2275 <= code && code <= 2403) ||
    (2406 <= code && code <= 2415) || (2417 <= code && code <= 2435) ||
    (2437 <= code && code <= 2444) || (2447 <= code && code <= 2448) ||
    (2451 <= code && code <= 2472) || (2474 <= code && code <= 2480) || code == 2482 ||
    (2486 <= code && code <= 2489) || (2492 <= code && code <= 2500) ||
    (2503 <= code && code <= 2504) || (2507 <= code && code <= 2510) || code == 2519 ||
    (2524 <= code && code <= 2525) || (2527 <= code && code <= 2531) ||
    (2534 <= code && code <= 2545) || (2561 <= code && code <= 2563) ||
    (2565 <= code && code <= 2570) || (2575 <= code && code <= 2576) ||
    (2579 <= code && code <= 2600) || (2602 <= code && code <= 2608) ||
    (2610 <= code && code <= 2611) || (2613 <= code && code <= 2614) ||
    (2616 <= code && code <= 2617) || code == 2620 || (2622 <= code && code <= 2626) ||
    (2631 <= code && code <= 2632) || (2635 <= code && code <= 2637) || code == 2641 ||
    (2649 <= code && code <= 2652) || code == 2654 || (2662 <= code && code <= 2677) ||
    (2689 <= code && code <= 2691) || (2693 <= code && code <= 2701) ||
    (2703 <= code && code <= 2705) || (2707 <= code && code <= 2728) ||
    (2730 <= code && code <= 2736) || (2738 <= code && code <= 2739) ||
    (2741 <= code && code <= 2745) || (2748 <= code && code <= 2757) ||
    (2759 <= code && code <= 2761) || (2763 <= code && code <= 2765) || code == 2768 ||
    (2784 <= code && code <= 2787) || (2790 <= code && code <= 2799) || code == 2809 ||
    (2817 <= code && code <= 2819)
}

/// Whether `code` is a word character from U+08A0 to U+0B03.
fn is_word_code_1(code: u32) -> (r: bool)
    ensures
        r == word_code_1(code),
{
    (2208 <= code && code <= 2228) || (2275 <= code && code <= 2403) ||
    (2406 <= code && code <= 2415) || (2417 <= code && code <= 2435) ||
    (2437 <= code && code <= 2444) || (2447 <= code && code <= 2448) ||
    (2451 <= code && code <= 2472) || (2474 <= code && code <= 2480) || code == 2482 ||
    (2486 <= code && code <= 2489) || (2492 <= code && code <= 2500) ||
    (2503 <= code && code <= 2504) || (2507 <= code && code <= 2510) || code == 2519 ||
    (2524 <= code && code <= 2525) || (2527 <= code && code <= 2531) ||
    (2534 <= code && code <= 2545) || (2561 <= code && code <= 2563) ||
    (2565 <= code && code <= 2570) || (2575 <= code && code <= 2576) ||
    (2579 <= code && code <= 2600) || (2602 <= code && code <= 2608) ||
    (2610 <= code && code <= 2611) || (2613 <= code && code <= 2614) ||
    (2616 <= code && code <= 2617) || code == 2620 || (2622 <= code && code <= 2626) ||
    (2631 <= code && code <= 2632) || (2635 <= code && code <= 2637) || code == 2641 ||
    (2649 <= code && code <= 2652) || code == 2654 || (2662 <= code && code <= 2677) ||
    (2689 <= code && code <= 2691) || (2693 <= code && code <= 2701) ||
    (2703 <= code && code <= 2705) || (2707 <= code && code <= 2728) ||
    (2730 <= code && code <= 2736) || (2738 <= code && code <= 2739) ||
    (2741 <= code && code <= 2745) || (2748 <= code && code <= 2757) ||
    (2759 <= code && code <= 2761) || (2763 <= code && code <= 2765) || code == 2768 ||
    (2784 <= code && code <= 2787) || (2790 <= code && code <= 2799) || code == 2809 ||
    (2817 <= code && code <= 2819)
}

/// The word characters from U+0B05 to U+0CB9.
pub open spec fn word_code_2(code: u32) -> bool {
    (2821 <= code && code <= 2828) || (2831 <= code && code <= 2832) ||
    (2835 <= code && code <= 2856) || (2858 <= code && code <= 2864) ||
    (2866 <= code && code <= 2867) || (2869 <= code && code <= 2873) ||
    (2876 <= code && code <= 2884) || (2887 <= code && code <= 2888) ||
    (2891 <= code && code <= 2893) || (2902 <= code && code <= 2903) ||
    (2908 <= code && code <= 2909) || (2911 <= code && code <= 2915) ||
    (2918 <= code && code <= 2927) || code == 2929 || (2946 <= code && code <= 2947) ||
    (2949 <= code && code <= 2954) || (2958 <= code && code <= 2960) ||
    (2962 <= code && code <= 2965) || (2969 <= code && code <= 2970) || code == 2972 ||
    (2974 <= code && code <= 2975) || (2979 <= code && code <= 2980) ||
    (2984 <= code && code <= 2986) || (2990 <= code && code <= 3001) ||
    (3006 <= code && code <= 3010) || (3014 <= code && code <= 3016) ||
    (3018 <= code && code <= 3021) || code == 3024 || code == 3031 ||
    (3046 <= code && code <= 3055) || (3072 <= code && code <= 3075) ||
    (3077 <= code && code <= 3084) || (3086 <= code && code <= 3088) ||
    (3090 <= code && code <= 3112) || (3114 <= code && code <= 3129) ||
    (3133 <= code && code <= 3140) || (3142 <= code && code <= 3144) ||
    (3146 <= code && code <= 3149) || (3157 <= code && code <= 3158) ||
    (3160 <= code && code <= 3162) || (3168 <= code && code <= 3171) ||
    (3174 <= code && code <= 3183) || (3201 <= code && code <= 3203) ||
    (3205 <= code && code <= 3212) || (3214 <= code && code <= 3216) ||
    (3218 <= code && code <= 3240) || (3242 <= code && code <= 3251) ||
    (3253 <= code && code <= 3257)
}

/// Whether `code` is a word character from U+0B05 to U+0CB9.
fn is_word_code_2(code: u32) -> (r: bool)
    ensures
        r == word_code_2(code),
{
    (2821 <= code && code <= 2828) || (2831 <= code && code <= 2832) ||
    (2835 <= code && code <= 2856) || (2858 <= code && code <= 2864) ||
    (2866 <= code && code <= 2867) || (2869 <= code && code <= 2873) ||
    (2876 <= code && code <= 2884) || (2887 <= code && code <= 2888) ||
    (2891 <= code && code <= 2893) || (2902 <= code && code <= 2903) ||
    (2908 <= code && code <= 2909) || (2911 <= code && code <= 2915) ||
    (2918 <= code && code <= 2927) || code == 2929 || (2946 <= code && code <= 2947) ||
    (2949 <= code && code <= 2954) || (2958 <= code && code <= 2960) ||
    (2962 <= code && code <= 2965) || (2969 <= code && code <= 2970) || code == 2972 ||
    (2974 <= code && code <= 2975) || (2979 <= code && code <= 2980) ||
    (2984 <= code && code <= 2986) || (2990 <= code && code <= 3001) ||
    (3006 <= code && code <= 3010) || (3014 <= code && code <= 3016) ||
    (3018 <= code && code <= 3021) || code == 3024 || code == 3031 ||
    (3046 <= code && code <= 3055) || (3072 <= code && code <= 3075) ||
    (3077 <= code && code <= 3084) || (3086 <= code && code <= 3088) ||
    (3090 <= code && code <= 3112) || (3114 <= code && code <= 3129) ||
    (3133 <= code && code <= 3140) || (3142 <= code && code <= 3144) ||
    (3146 <= code && code <= 3149) || (3157 <= code && code <= 3158) ||
    (3160 <= code && code <= 3162) || (3168 <= code && code <= 3171) ||
    (3174 <= code && code <= 3183) || (3201 <= code && code <= 3203) ||
    (3205 <= code && code <= 3212) || (3214 <= code && code <= 3216) ||
    (3218 <= code && code <= 3240) || (3242 <= code && code <= 3251) ||
    (3253 <= code && code <= 3257)
}

/// The word characters from U+0CBC to U+0EC4.
pub open spec fn word_code_3(code: u32) -> bool {
    (3260 <= code && code <= 3268) || (3270 <= code && code <= 3272) ||
    (3274 <= code && code <= 3277) || (3285 <= code && code <= 3286) || code == 3294 ||
    (3296 <= code && code <= 3299) || (3302 <= code && code <= 3311) ||
    (3313 <= code && code <= 3314) || (3329 <= code && code <= 3331) ||
    (3333 <= code && code <= 3340) || (3342 <= code && code <= 3344) ||
    (3346 <= code && code <= 3386) || (3389 <= code && code <= 3396) ||
    (3398 <= code && code <= 3400) || (3402 <= code && code <= 3406) || code == 3415 ||
    (3423 <= code && code <= 3427) || (3430 <= code && code <= 3439) ||
    (3450 <= code && code <= 3455) || (3458 <= code && code <= 3459) ||
    (3461 <= code && code <= 3478) || (3482 <= code && code <= 3505) ||
    (3507 <= code && code <= 3515) || code == 3517 || (3520 <= code && code <= 3526) ||
    code == 3530 || (3535 <= code && code <= 3540) || code == 3542 ||
    (3544 <= code && code <= 3551) || (3558 <= code && code <= 3567) ||
    (3570 <= code && code <= 3571) || (3585 <= code && code <= 3642) ||
    (3648 <= code && code <= 3662) || (3664 <= code && code <= 3673) ||
    (3713 <= code && code <= 3714) || code == 3716 || (3719 <= code && code <= 3720) ||
    code == 3722 || code == 3725 || (3732 <= code && code <= 3735) ||
    (3737 <= code && code <= 3743) || (3745 <= code && code <= 3747) || code == 3749 ||
    code == 3751 || (3754 <= code && code <= 3755) || (3757 <= code && code <= 3769) ||
    (3771 <= code && code <= 3773) || (3776 <= code && code <= 3780)
}

/// Whether `code` is a word character from U+0CBC to U+0EC4.
fn is_word_code_3(code: u32) -> (r: bool)
    ensures
        r == word_code_3(code),
{
    (3260 <= code && code <= 3268) || (3270 <= code && code <= 3272) ||
    (3274 <= code && code <= 3277) || (3285 <= code && code <= 3286) || code == 3294 ||
    (3296 <= code && code <= 3299) || (3302 <= code && code <= 3311) ||
    (3313 <= code && code <= 3314) || (3329 <= code && code <= 3331) ||
    (3333 <= code && code <= 3340) || (3342 <= code && code <= 3344) ||
    (3346 <= code && code <= 3386) || (3389 <= code && code <= 3396) ||
    (3398 <= code && code <= 3400) || (3402 <= code && code <= 3406) || code == 3415 ||
    (3423 <= code && code <= 3427) || (3430 <= code && code <= 3439) ||
    (3450 <= code && code <= 3455) || (3458 <= code && code <= 3459) ||
    (3461 <= code && code <= 3478) || (3482 <= code && code <= 3505) ||
    (3507 <= code && code <= 3515) || code == 3517 || (3520 <= code && code <= 3526) ||
    code == 3530 || (3535 <= code && code <= 3540) || code == 3542 ||
    (3544 <= code && code <= 3551) || (3558 <= code && code <= 3567) ||
    (3570 <= code && code <= 3571) || (3585 <= code && code <= 3642) ||
    (3648 <= code && code <= 3662) || (3664 <= code && code <= 3673) ||
    (3713 <= code && code <= 3714) || code == 3716 || (3719 <= code && code <= 3720) ||
    code == 3722 || code == 3725 || (3732 <= code && code <= 3735) ||
    (3737 <= code && code <= 3743) || (3745 <= code && code <= 3747) || code == 3749 ||
    code == 3751 || (3754 <= code && code <= 3755) || (3757 <= code && code <= 3769) ||
    (3771 <= code && code <= 3773) || (3776 <= code && code <= 3780)
}

/// The word characters from U+0EC6 to U+170C.
pub open spec fn word_code_4(code: u32) -> bool {
    code == 3782 || (3784 <= code && code <= 3789) || (3792 <= code && code <= 3801) ||
    (3804 <= code && code <= 3807) || code == 3840 || (3864 <= code && code <= 3865) ||
    (3872 <= code && code <= 3881) || code == 3893 || code == 3895 || code == 3897 ||
    (3902 <= code && code <= 3911) || (3913 <= code && code <= 3948) ||
    (3953 <= code && code <= 3972) || (3974 <= code && code <= 3991) ||
    (3993 <= code && code <= 4028) || code == 4038 || (4096 <= code && code <= 4169) ||
    (4176 <= code && code <= 4253) || (4256 <= code && code <= 4293) || code == 4295 ||
    code == 4301 || (4304 <= code && code <= 4346) || (4348 <= code && code <= 4680) ||
    (4682 <= code && code <= 4685) || (4688 <= code && code <= 4694) || code == 4696 ||
    (4698 <= code && code <= 4701) || (4704 <= code && code <= 4744) ||
    (4746 <= code && code <= 4749) || (4752 <= code && code <= 4784) ||
    (4786 <= code && code <= 4789) || (4792 <= code && code <= 4798) || code == 4800 ||
    (4802 <= code && code <= 4805) || (4808 <= code && code <= 4822) ||
    (4824 <= code && code <= 4880) || (4882 <= code && code <= 4885) ||
    (4888 <= code && code <= 4954) || (4957 <= code && code <= 4959) ||
    (4992 <= code && code <= 5007) || (5024 <= code && code <= 5109) ||
    (5112 <= code && code <= 5117) || (5121 <= code && code <= 5740) ||
    (5743 <= code && code <= 5759) || (5761 <= code && code <= 5786) ||
    (5792 <= code && code <= 5866) || (5870 <= code && code <= 5880) ||
    (5888 <= code && code <= 5900)
}

/// Whether `code` is a word character from U+0EC6 to U+170C.
fn is_word_code_4(code: u32) -> (r: bool)
    ensures
        r == word_code_4(code),
{
    code == 3782 || (3784 <= code && code <= 3789) || (3792 <= code && code <= 3801) ||
    (3804 <= code && code <= 3807) || code == 3840 || (3864 <= code && code <= 3865) ||
    (3872 <= code && code <= 3881) || code == 3893 || code == 3895 || code == 3897 ||
    (3902 <= code && code <= 3911) || (3913 <= code && code <= 3948) ||
    (3953 <= code && code <= 3972) || (3974 <= code && code <= 3991) ||
    (3993 <= code && code <= 4028) || code == 4038 || (4096 <= code && code <= 4169) ||
    (4176 <= code && code <= 4253) || (4256 <= code && code <= 4293) || code == 4295 ||
    code == 4301 || (4304 <= code && code <= 4346) || (4348 <= code && code <= 4680) ||
    (4682 <= code && code <= 4685) || (4688 <= code && code <= 4694) || code == 4696 ||
    (4698 <= code && code <= 4701) || (4704 <= code && code <= 4744) ||
    (4746 <= code && code <= 4749) || (4752 <= code && code <= 4784) ||
    (4786 <= code && code <= 4789) || (4792 <= code && code <= 4798) || code == 4800 ||
    (4802 <= code && code <= 4805) || (4808 <= code && code <= 4822) ||
    (4824 <= code && code <= 4880) || (4882 <= code && code <= 4885) ||
    (4888 <= code && code <= 4954) || (4957 <= code && code <= 4959) ||
    (4992 <= code && code <= 5007) || (5024 <= code && code <= 5109) ||
    (5112 <= code && code <= 5117) || (5121 <= code && code <= 5740) ||
    (5743 <= code && code <= 5759) || (5761 <= code && code <= 5786) ||
    (5792 <= code && code <= 5866) || (5870 <= code && code <= 5880) ||
    (5888 <= code && code <= 5900)
}

/// The word characters from U+170E to U+1F5B.
pub open spec fn word_code_5(code: u32) -> bool {
    (5902 <= code && code <= 5908) || (5920 <= code && code <= 5940) ||
    (5952 <= code && code <= 5971) || (5984 <= code && code <= 5996) ||
    (5998 <= code && code <= 6000) || (6002 <= code && code <= 6003) ||
    (6016 <= code && code <= 6099) || code == 6103 || (6108 <= code && code <= 6109) ||
    (6112 <= code && code <= 6121) || (6155 <= code && code <= 6157) ||
    (6160 <= code && code <= 6169) || (6176 <= code && code <= 6263) ||
    (6272 <= code && code <= 6314) || (6320 <= code && code <= 6389) ||
    (6400 <= code && code <= 6430) || (6432 <= code && code <= 6443) ||
    (6448 <= code && code <= 6459) || (6470 <= code && code <= 6509) ||
    (6512 <= code && code <= 6516) || (6528 <= code && code <= 6571) ||
    (6576 <= code && code <= 6601) || (6608 <= code && code <= 6617) ||
    (6656 <= code && code <= 6683) || (6688 <= code && code <= 6750) ||
    (6752 <= code && code <= 6780) || (6783 <= code && code <= 6793) ||
    (6800 <= code && code <= 6809) || code == 6823 || (6832 <= code && code <= 6846) ||
    (6912 <= code && code <= 6987) || (6992 <= code && code <= 7001) ||
    (7019 <= code && code <= 7027) || (7040 <= code && code <= 7155) ||
    (7168 <= code && code <= 7223) || (7232 <= code && code <= 7241) ||
    (7245 <= code && code <= 7293) || (7376 <= code && code <= 7378) ||
    (7380 <= code && code <= 7414) || (7416 <= code && code <= 7417) ||
    (7424 <= code && code <= 7669) || (7676 <= code && code <= 7957) ||
    (7960 <= code && code <= 7965) || (7968 <= code && code <= 8005) ||
    (8008 <= code && code <= 8013) || (8016 <= code && code <= 8023) || code == 8025 ||
    code == 8027
}

/// Whether `code` is a word character from U+170E to U+1F5B.
fn is_word_code_5(code: u32) -> (r: bool)
    ensures
        r == word_code_5(code),
{
    (5902 <= code && code <= 5908) || (5920 <= code && code <= 5940) ||
    (5952 <= code && code <= 5971) || (5984 <= code && code <= 5996) ||
    (5998 <= code && code <= 6000) || (6002 <= code && code <= 6003) ||
    (6016 <= code && code <= 6099) || code == 6103 || (6108 <= code && code <= 6109) ||
    (6112 <= code && code <= 6121) || (6155 <= code && code <= 6157) ||
    (6160 <= code && code <= 6169) || (6176 <= code && code <= 6263) ||
    (6272 <= code && code <= 6314) || (6320 <= code && code <= 6389) ||
    (6400 <= code && code <= 6430) || (6432 <= code && code <= 6443) ||
    (6448 <= code && code <= 6459) || (6470 <= code && code <= 6509) ||
    (6512 <= code && code <= 6516) || (6528 <= code && code <= 6571) ||
    (6576 <= code && code <= 6601) || (6608 <= code && code <= 6617) ||
    (6656 <= code && code <= 6683) || (6688 <= code && code <= 6750) ||
    (6752 <= code && code <= 6780) || (6783 <= code && code <= 6793) ||
    (6800 <= code && code <= 6809) || code == 6823 || (6832 <= code && code <= 6846) ||
    (6912 <= code && code <= 6987) || (6992 <= code && code <= 7001) ||
    (7019 <= code && code <= 7027) || (7040 <= code && code <= 7155) ||
    (7168 <= code && code <= 7223) || (7232 <= code && code <= 7241) ||
    (7245 <= code && code <= 7293) || (7376 <= code && code <= 7378) ||
    (7380 <= code && code <= 7414) || (7416 <= code && code <= 7417) ||
    (7424 <= code && code <= 7669) || (7676 <= code && code <= 7957) ||
    (7960 <= code && code <= 7965) || (7968 <= code && code <= 8005) ||
    (8008 <= code && code <= 8013) || (8016 <= code && code <= 8023) || code == 8025 ||
    code == 8027
}

/// The word characters from U+1F5D to U+2DBE.
pub open spec fn word_code_6(code: u32) -> bool {
    code == 8029 || (8031 <= code && code <= 8061) || (8064 <= code && code <= 8116) ||
    (8118 <= code && code <= 8124) || code == 8126 || (8130 <= code && code <= 8132) ||
    (8134 <= code && code <= 8140) || (8144 <= code && code <= 8147) ||
    (8150 <= code && code <= 8155) || (8160 <= code && code <= 8172) ||
    (8178 <= code && code <= 8180) || (8182 <= code && code <= 8188) ||
    (8204 <= code && code <= 8205) || (8255 <= code && code <= 8256) || code == 8276 ||
    code == 8305 || code == 8319 || (8336 <= code && code <= 8348) ||
    (8400 <= code && code <= 8432) || code == 8450 || code == 8455 ||
    (8458 <= code && code <= 8467) || code == 8469 || (8473 <= code && code <= 8477) ||
    code == 8484 || code == 8486 || code == 8488 || (8490 <= code && code <= 8493) ||
    (8495 <= code && code <= 8505) || (8508 <= code && code <= 8511) ||
    (8517 <= code && code <= 8521) || code == 8526 || (8544 <= code && code <= 8584) ||
    (9398 <= code && code <= 9449) || (11264 <= code && code <= 11310) ||
    (11312 <= code && code <= 11358) || (11360 <= code && code <= 11492) ||
    (11499 <= code && code <= 11507) || (11520 <= code && code <= 11557) ||
    code == 11559 || code == 11565 || (11568 <= code && code <= 11623) || code == 11631 ||
    (11647 <= code && code <= 11670) || (11680 <= code && code <= 11686) ||
    (11688 <= code && code <= 11694) || (11696 <= code && code <= 11702) ||
    (11704 <= code && code <= 11710)
}

/// Whether `code` is a word character from U+1F5D to U+2DBE.
fn is_word_code_6(code: u32) -> (r: bool)
    ensures
        r == word_code_6(code),
{
    code == 8029 || (8031 <= code && code <= 8061) || (8064 <= code && code <= 8116) ||
    (8118 <= code && code <= 8124) || code == 8126 || (8130 <= code && code <= 8132) ||
    (8134 <= code && code <= 8140) || (8144 <= code && code <= 8147) ||
    (8150 <= code && code <= 8155) || (8160 <= code && code <= 8172) ||
    (8178 <= code && code <= 8180) || (8182 <= code && code <= 8188) ||
    (8204 <= code && code <= 8205) || (8255 <= code && code <= 8256) || code == 8276 ||
    code == 8305 || code == 8319 || (8336 <= code && code <= 8348) ||
    (8400 <= code && code <= 8432) || code == 8450 || code == 8455 ||
    (8458 <= code && code <= 8467) || code == 8469 || (8473 <= code && code <= 8477) ||
    code == 8484 || code == 8486 || code == 8488 || (8490 <= code && code <= 8493) ||
    (8495 <= code && code <= 8505) || (8508 <= code && code <= 8511) ||
    (8517 <= code && code <= 8521) || code == 8526 || (8544 <= code && code <= 8584) ||
    (9398 <= code && code <= 9449) || (11264 <= code && code <= 11310) ||
    (11312 <= code && code <= 11358) || (11360 <= code && code <= 11492) ||
    (11499 <= code && code <= 11507) || (11520 <= code && code <= 11557) ||
    code == 11559 || code == 11565 || (11568 <= code && code <= 11623) || code == 11631 ||
    (11647 <= code && code <= 11670) || (11680 <= code && code <= 11686) ||
    (11688 <= code && code <= 11694) || (11696 <= code && code <= 11702) ||
    (11704 <= code && code <= 11710)
}

/// The word characters from U+2DC0 to U+AA59.
pub open spec fn word_code_7(code: u32) -> bool {
    (11712 <= code && code <= 11718) || (11720 <= code && code <= 11726) ||
    (11728 <= code && code <= 11734) || (11736 <= code && code <= 11742) ||
    (11744 <= code && code <= 11775) || code == 11823 ||
    (12293 <= code && code <= 12295) || (12321 <= code && code <= 12335) ||
    (12337 <= code && code <= 12341) || (12344 <= code && code <= 12348) ||
    (12353 <= code && code <= 12438) || (12441 <= code && code <= 12442) ||
    (12445 <= code && code <= 12447) || (12449 <= code && code <= 12538) ||
    (12540 <= code && code <= 12543) || (12549 <= code && code <= 12589) ||
    (12593 <= code && code <= 12686) || (12704 <= code && code <= 12730) ||
    (12784 <= code && code <= 12799) || (13312 <= code && code <= 19893) ||
    (19968 <= code && code <= 40917) || (40960 <= code && code <= 42124) ||
    (42192 <= code && code <= 42237) || (42240 <= code && code <= 42508) ||
    (42512 <= code && code <= 42539) || (42560 <= code && code <= 42610) ||
    (42612 <= code && code <= 42621) || (42623 <= code && code <= 42737) ||
    (42775 <= code && code <= 42783) || (42786 <= code && code <= 42888) ||
    (42891 <= code && code <= 42925) || (42928 <= code && code <= 42935) ||
    (42999 <= code && code <= 43047) || (43072 <= code && code <= 43123) ||
    (43136 <= code && code <= 43204) || (43216 <= code && code <= 43225) ||
    (43232 <= code && code <= 43255) || code == 43259 || code == 43261 ||
    (43264 <= code && code <= 43309) || (43312 <= code && code <= 43347) ||
    (43360 <= code && code <= 43388) || (43392 <= code && code <= 43456) ||
    (43471 <= code && code <= 43481) || (43488 <= code && code <= 43518) ||
    (43520 <= code && code <= 43574) || (43584 <= code && code <= 43597) ||
    (43600 <= code && code <= 43609)
}

/// Whether `code` is a word character from U+2DC0 to U+AA59.
fn is_word_code_7(code: u32) -> (r: bool)
    ensures
        r == word_code_7(code),
{
    (11712 <= code && code <= 11718) || (11720 <= code && code <= 11726) ||
    (11728 <= code && code <= 11734) || (11736 <= code && code <= 11742) ||
    (11744 <= code && code <= 11775) || code == 11823 ||
    (12293 <= code && code <= 12295) || (12321 <= code && code <= 12335) ||
    (12337 <= code && code <= 12341) || (12344 <= code && code <= 12348) ||
    (12353 <= code && code <= 12438) || (12441 <= code && code <= 12442) ||
    (12445 <= code && code <= 12447) || (12449 <= code && code <= 12538) ||
    (12540 <= code && code <= 12543) || (12549 <= code && code <= 12589) ||
    (12593 <= code && code <= 12686) || (12704 <= code && code <= 12730) ||
    (12784 <= code && code <= 12799) || (13312 <= code && code <= 19893) ||
    (19968 <= code && code <= 40917) || (40960 <= code && code <= 42124) ||
    (42192 <= code && code <= 42237) || (42240 <= code && code <= 42508) ||
    (42512 <= code && code <= 42539) || (42560 <= code && code <= 42610) ||
    (42612 <= code && code <= 42621) || (42623 <= code && code <= 42737) ||
    (42775 <= code && code <= 42783) || (42786 <= code && code <= 42888) ||
    (42891 <= code && code <= 42925) || (42928 <= code && code <= 42935) ||
    (42999 <= code && code <= 43047) || (43072 <= code && code <= 43123) ||
    (43136 <= code && code <= 43204) || (43216 <= code && code <= 43225) ||
    (43232 <= code && code <= 43255) || code == 43259 || code == 43261 ||
    (43264 <= code && code <= 43309) || (43312 <= code && code <= 43347) ||
    (43360 <= code && code <= 43388) || (43392 <= code && code <= 43456) ||
    (43471 <= code && code <= 43481) || (43488 <= code && code <= 43518) ||
    (43520 <= code && code <= 43574) || (43584 <= code && code <= 43597) ||
    (43600 <= code && code <= 43609)
}

/// The word characters from U+AA60 to U+FFDC.
pub open spec fn word_code_8(code: u32) -> bool {
    (43616 <= code && code <= 43638) || (43642 <= code && code <= 43714) ||
    (43739 <= code && code <= 43741) || (43744 <= code && code <= 43759) ||
    (43762 <= code && code <= 43766) || (43777 <= code && code <= 43782) ||
    (43785 <= code && code <= 43790) || (43793 <= code && code <= 43798) ||
    (43808 <= code && code <= 43814) || (43816 <= code && code <= 43822) ||
    (43824 <= code && code <= 43866) || (43868 <= code && code <= 43877) ||
    (43888 <= code && code <= 44010) || (44012 <= code && code <= 44013) ||
    (44016 <= code && code <= 44025) || (44032 <= code && code <= 55203) ||
    (55216 <= code && code <= 55238) || (55243 <= code && code <= 55291) ||
    (63744 <= code && code <= 64109) || (64112 <= code && code <= 64217) ||
    (64256 <= code && code <= 64262) || (64275 <= code && code <= 64279) ||
    (64285 <= code && code <= 64296) || (64298 <= code && code <= 64310) ||
    (64312 <= code && code <= 64316) || code == 64318 ||
    (64320 <= code && code <= 64321) || (64323 <= code && code <= 64324) ||
    (64326 <= code && code <= 64433) || (64467 <= code && code <= 64829) ||
    (64848 <= code && code <= 64911) || (64914 <= code && code <= 64967) ||
    (65008 <= code && code <= 65019) || (65024 <= code && code <= 65039) ||
    (65056 <= code && code <= 65071) || (65075 <= code && code <= 65076) ||
    (65101 <= code && code <= 65103) || (65136 <= code && code <= 65140) ||
    (65142 <= code && code <= 65276) || (65296 <= code && code <= 65305) ||
    (65313 <= code && code <= 65338) || code == 65343 ||
    (65345 <= code && code <= 65370) || (65382 <= code && code <= 65470) ||
    (65474 <= code && code <= 65479) || (65482 <= code && code <= 65487) ||
    (65490 <= code && code <= 65495) || (65498 <= code && code <= 65500)
}

/// Whether `code` is a word character from U+AA60 to U+FFDC.
fn is_word_code_8(code: u32) -> (r: bool)
    ensures
        r == word_code_8(code),
{
    (43616 <= code && code <= 43638) || (43642 <= code && code <= 43714) ||
    (43739 <= code && code <= 43741) || (43744 <= code && code <= 43759) ||
    (43762 <= code && code <= 43766) || (43777 <= code && code <= 43782) ||
    (43785 <= code && code <= 43790) || (43793 <= code && code <= 43798) ||
    (43808 <= code && code <= 43814) || (43816 <= code && code <= 43822) ||
    (43824 <= code && code <= 43866) || (43868 <= code && code <= 43877) ||
    (43888 <= code && code <= 44010) || (44012 <= code && code <= 44013) ||
    (44016 <= code && code <= 44025) || (44032 <= code && code <= 55203) ||
    (55216 <= code && code <= 55238) || (55243 <= code && code <= 55291) ||
    (63744 <= code && code <= 64109) || (64112 <= code && code <= 64217) ||
    (64256 <= code && code <= 64262) || (64275 <= code && code <= 64279) ||
    (64285 <= code && code <= 64296) || (64298 <= code && code <= 64310) ||
    (64312 <= code && code <= 64316) || code == 64318 ||
    (64320 <= code && code <= 64321) || (64323 <= code && code <= 64324) ||
    (64326 <= code && code <= 64433) || (64467 <= code && code <= 64829) ||
    (64848 <= code && code <= 64911) || (64914 <= code && code <= 64967) ||
    (65008 <= code && code <= 65019) || (65024 <= code && code <= 65039) ||
    (65056 <= code && code <= 65071) || (65075 <= code && code <= 65076) ||
    (65101 <= code && code <= 65103) || (65136 <= code && code <= 65140) ||
    (65142 <= code && code <= 65276) || (65296 <= code && code <= 65305) ||
    (65313 <= code && code <= 65338) || code == 65343 ||
    (65345 <= code && code <= 65370) || (65382 <= code && code <= 65470) ||
    (65474 <= code && code <= 65479) || (65482 <= code && code <= 65487) ||
    (65490 <= code && code <= 65495) || (65498 <= code && code <= 65500)
}

/// The word characters from U+10000 to U+10A7C.
pub open spec fn word_code_9(code: u32) -> bool {
    (65536 <= code && code <= 65547) || (65549 <= code && code <= 65574) ||
    (65576 <= code && code <= 65594) || (65596 <= code && code <= 65597) ||
    (65599 <= code && code <= 65613) || (65616 <= code && code <= 65629) ||
    (65664 <= code && code <= 65786) || (65856 <= code && code <= 65908) ||
    code == 66045 || (66176 <= code && code <= 66204) ||
    (66208 <= code && code <= 66256) || code == 66272 ||
    (66304 <= code && code <= 66335) || (66352 <= code && code <= 66378) ||
    (66384 <= code && code <= 66426) || (66432 <= code && code <= 66461) ||
    (66464 <= code && code <= 66499) || (66504 <= code && code <= 66511) ||
    (66513 <= code && code <= 66517) || (66560 <= code && code <= 66717) ||
    (66720 <= code && code <= 66729) || (66816 <= code && code <= 66855) ||
    (66864 <= code && code <= 66915) || (67072 <= code && code <= 67382) ||
    (67392 <= code && code <= 67413) || (67424 <= code && code <= 67431) ||
    (67584 <= code && code <= 67589) || code == 67592 ||
    (67594 <= code && code <= 67637) || (67639 <= code && code <= 67640) ||
    code == 67644 || (67647 <= code && code <= 67669) ||
    (67680 <= code && code <= 67702) || (67712 <= code && code <= 67742) ||
    (67808 <= code && code <= 67826) || (67828 <= code && code <= 67829) ||
    (67840 <= code && code <= 67861) || (67872 <= code && code <= 67897) ||
    (67968 <= code && code <= 68023) || (68030 <= code && code <= 68031) ||
    (68096 <= code && code <= 68099) || (68101 <= code && code <= 68102) ||
    (68108 <= code && code <= 68115) || (68117 <= code && code <= 68119) ||
    (68121 <= code && code <= 68147) || (68152 <= code && code <= 68154) ||
    code == 68159 || (68192 <= code && code <= 68220)
}

/// Whether `code` is a word character from U+10000 to U+10A7C.
fn is_word_code_9(code: u32) -> (r: bool)
    ensures
        r == word_code_9(code),
{
    (65536 <= code && code <= 65547) || (65549 <= code && code <= 65574) ||
    (65576 <= code && code <= 65594) || (65596 <= code && code <= 65597) ||
    (65599 <= code && code <= 65613) || (65616 <= code && code <= 65629) ||
    (65664 <= code && code <= 65786) || (65856 <= code && code <= 65908) ||
    code == 66045 || (66176 <= code && code <= 66204) ||
    (66208 <= code && code <= 66256) || code == 66272 ||
    (66304 <= code && code <= 66335) || (66352 <= code && code <= 66378) ||
    (66384 <= code && code <= 66426) || (66432 <= code && code <= 66461) ||
    (66464 <= code && code <= 66499) || (66504 <= code && code <= 66511) ||
    (66513 <= code && code <= 66517) || (66560 <= code && code <= 66717) ||
    (66720 <= code && code <= 66729) || (66816 <= code && code <= 66855) ||
    (66864 <= code && code <= 66915) || (67072 <= code && code <= 67382) ||
    (67392 <= code && code <= 67413) || (67424 <= code && code <= 67431) ||
    (67584 <= code && code <= 67589) || code == 67592 ||
    (67594 <= code && code <= 67637) || (67639 <= code && code <= 67640) ||
    code == 67644 || (67647 <= code && code <= 67669) ||
    (67680 <= code && code <= 67702) || (67712 <= code && code <= 67742) ||
    (67808 <= code && code <= 67826) || (67828 <= code && code <= 67829) ||
    (67840 <= code && code <= 67861) || (67872 <= code && code <= 67897) ||
    (67968 <= code && code <= 68023) || (68030 <= code && code <= 68031) ||
    (68096 <= code && code <= 68099) || (68101 <= code && code <= 68102) ||
    (68108 <= code && code <= 68115) || (68117 <= code && code <= 68119) ||
    (68121 <= code && code <= 68147) || (68152 <= code && code <= 68154) ||
    code == 68159 || (68192 <= code && code <= 68220)
}

/// The word characters from U+10A80 to U+114C5.
pub open spec fn word_code_10(code: u32) -> bool {
    (68224 <= code && code <= 68252) || (68288 <= code && code <= 68295) ||
    (68297 <= code && code <= 68326) || (68352 <= code && code <= 68405) ||
    (68416 <= code && code <= 68437) || (68448 <= code && code <= 68466) ||
    (68480 <= code && code <= 68497) || (68608 <= code && code <= 68680) ||
    (68736 <= code && code <= 68786) || (68800 <= code && code <= 68850) ||
    (69632 <= code && code <= 69702) || (69734 <= code && code <= 69743) ||
    (69759 <= code && code <= 69818) || (69840 <= code && code <= 69864) ||
    (69872 <= code && code <= 69881) || (69888 <= code && code <= 69940) ||
    (69942 <= code && code <= 69951) || (69968 <= code && code <= 70003) ||
    code == 70006 || (70016 <= code && code <= 70084) ||
    (70090 <= code && code <= 70092) || (70096 <= code && code <= 70106) ||
    code == 70108 || (70144 <= code && code <= 70161) ||
    (70163 <= code && code <= 70199) || (70272 <= code && code <= 70278) ||
    code == 70280 || (70282 <= code && code <= 70285) ||
    (70287 <= code && code <= 70301) || (70303 <= code && code <= 70312) ||
    (70320 <= code && code <= 70378) || (70384 <= code && code <= 70393) ||
    (70400 <= code && code <= 70403) || (70405 <= code && code <= 70412) ||
    (70415 <= code && code <= 70416) || (70419 <= code && code <= 70440) ||
    (70442 <= code && code <= 70448) || (70450 <= code && code <= 70451) ||
    (70453 <= code && code <= 70457) || (70460 <= code && code <= 70468) ||
    (70471 <= code && code <= 70472) || (70475 <= code && code <= 70477) ||
    code == 70480 || code == 70487 || (70493 <= code && code <= 70499) ||
    (70502 <= code && code <= 70508) || (70512 <= code && code <= 70516) ||
    (70784 <= code && code <= 70853)
}

/// Whether `code` is a word character from U+10A80 to U+114C5.
fn is_word_code_10(code: u32) -> (r: bool)
    ensures
        r == word_code_10(code),
{
    (68224 <= code && code <= 68252) || (68288 <= code && code <= 68295) ||
    (68297 <= code && code <= 68326) || (68352 <= code && code <= 68405) ||
    (68416 <= code && code <= 68437) || (68448 <= code && code <= 68466) ||
    (68480 <= code && code <= 68497) || (68608 <= code && code <= 68680) ||
    (68736 <= code && code <= 68786) || (68800 <= code && code <= 68850) ||
    (69632 <= code && code <= 69702) || (69734 <= code && code <= 69743) ||
    (69759 <= code && code <= 69818) || (69840 <= code && code <= 69864) ||
    (69872 <= code && code <= 69881) || (69888 <= code && code <= 69940) ||
    (69942 <= code && code <= 69951) || (69968 <= code && code <= 70003) ||
    code == 70006 || (70016 <= code && code <= 70084) ||
    (70090 <= code && code <= 70092) || (70096 <= code && code <= 70106) ||
    code == 70108 || (70144 <= code && code <= 70161) ||
    (70163 <= code && code <= 70199) || (70272 <= code && code <= 70278) ||
    code == 70280 || (70282 <= code && code <= 70285) ||
    (70287 <= code && code <= 70301) || (70303 <= code && code <= 70312) ||
    (70320 <= code && code <= 70378) || (70384 <= code && code <= 70393) ||
    (70400 <= code && code <= 70403) || (70405 <= code && code <= 70412) ||
    (70415 <= code && code <= 70416) || (70419 <= code && code <= 70440) ||
    (70442 <= code && code <= 70448) || (70450 <= code && code <= 70451) ||
    (70453 <= code && code <= 70457) || (70460 <= code && code <= 70468) ||
    (70471 <= code && code <= 70472) || (70475 <= code && code <= 70477) ||
    code == 70480 || code == 70487 || (70493 <= code && code <= 70499) ||
    (70502 <= code && code <= 70508) || (70512 <= code && code <= 70516) ||
    (70784 <= code && code <= 70853)
}

/// The word characters from U+114C7 to U+1D49C.
pub open spec fn word_code_11(code: u32) -> bool {
    code == 70855 || (70864 <= code && code <= 70873) ||
    (71040 <= code && code <= 71093) || (71096 <= code && code <= 71104) ||
    (71128 <= code && code <= 71133) || (71168 <= code && code <= 71232) ||
    code == 71236 || (71248 <= code && code <= 71257) ||
    (71296 <= code && code <= 71351) || (71360 <= code && code <= 71369) ||
    (71424 <= code && code <= 71449) || (71453 <= code && code <= 71467) ||
    (71472 <= code && code <= 71481) || (71840 <= code && code <= 71913) ||
    code == 71935 || (72384 <= code && code <= 72440) ||
    (73728 <= code && code <= 74649) || (74752 <= code && code <= 74862) ||
    (74880 <= code && code <= 75075) || (77824 <= code && code <= 78894) ||
    (82944 <= code && code <= 83526) || (92160 <= code && code <= 92728) ||
    (92736 <= code && code <= 92766) || (92768 <= code && code <= 92777) ||
    (92880 <= code && code <= 92909) || (92912 <= code && code <= 92916) ||
    (92928 <= code && code <= 92982) || (92992 <= code && code <= 92995) ||
    (93008 <= code && code <= 93017) || (93027 <= code && code <= 93047) ||
    (93053 <= code && code <= 93071) || (93952 <= code && code <= 94020) ||
    (94032 <= code && code <= 94078) || (94095 <= code && code <= 94111) ||
    (110592 <= code && code <= 110593) || (113664 <= code && code <= 113770) ||
    (113776 <= code && code <= 113788) || (113792 <= code && code <= 113800) ||
    (113808 <= code && code <= 113817) || (113821 <= code && code <= 113822) ||
    (119141 <= code && code <= 119145) || (119149 <= code && code <= 119154) ||
    (119163 <= code && code <= 119170) || (119173 <= code && code <= 119179) ||
    (119210 <= code && code <= 119213) || (119362 <= code && code <= 119364) ||
    (119808 <= code && code <= 119892) || (119894 <= code && code <= 119964)
}

/// Whether `code` is a word character from U+114C7 to U+1D49C.
fn is_word_code_11(code: u32) -> (r: bool)
    ensures
        r == word_code_11(code),
{
    code == 70855 || (70864 <= code && code <= 70873) ||
    (71040 <= code && code <= 71093) || (71096 <= code && code <= 71104) ||
    (71128 <= code && code <= 71133) || (71168 <= code && code <= 71232) ||
    code == 71236 || (71248 <= code && code <= 71257) ||
    (71296 <= code && code <= 71351) || (71360 <= code && code <= 71369) ||
    (71424 <= code && code <= 71449) || (71453 <= code && code <= 71467) ||
    (71472 <= code && code <= 71481) || (71840 <= code && code <= 71913) ||
    code == 71935 || (72384 <= code && code <= 72440) ||
    (73728 <= code && code <= 74649) || (74752 <= code && code <= 74862) ||
    (74880 <= code && code <= 75075) || (77824 <= code && code <= 78894) ||
    (82944 <= code && code <= 83526) || (92160 <= code && code <= 92728) ||
    (92736 <= code && code <= 92766) || (92768 <= code && code <= 92777) ||
    (92880 <= code && code <= 92909) || (92912 <= code && code <= 92916) ||
    (92928 <= code && code <= 92982) || (92992 <= code && code <= 92995) ||
    (93008 <= code && code <= 93017) || (93027 <= code && code <= 93047) ||
    (93053 <= code && code <= 93071) || (93952 <= code && code <= 94020) ||
    (94032 <= code && code <= 94078) || (94095 <= code && code <= 94111) ||
    (110592 <= code && code <= 110593) || (113664 <= code && code <= 113770) ||
    (113776 <= code && code <= 113788) || (113792 <= code && code <= 113800) ||
    (113808 <= code && code <= 113817) || (113821 <= code && code <= 113822) ||
    (119141 <= code && code <= 119145) || (119149 <= code && code <= 119154) ||
    (119163 <= code && code <= 119170) || (119173 <= code && code <= 119179) ||
    (119210 <= code && code <= 119213) || (119362 <= code && code <= 119364) ||
    (119808 <= code && code <= 119892) || (119894 <= code && code <= 119964)
}

/// The word characters from U+1D49E to U+1EE47.
pub open spec fn word_code_12(code: u32) -> bool {
    (119966 <= code && code <= 119967) || code == 119970 ||
    (119973 <= code && code <= 119974) || (119977 <= code && code <= 119980) ||
    (119982 <= code && code <= 119993) || code == 119995 ||
    (119997 <= code && code <= 120003) || (120005 <= code && code <= 120069) ||
    (120071 <= code && code <= 120074) || (120077 <= code && code <= 120084) ||
    (120086 <= code && code <= 120092) || (120094 <= code && code <= 120121) ||
    (120123 <= code && code <= 120126) || (120128 <= code && code <= 120132) ||
    code == 120134 || (120138 <= code && code <= 120144) ||
    (120146 <= code && code <= 120485) || (120488 <= code && code <= 120512) ||
    (120514 <= code && code <= 120538) || (120540 <= code && code <= 120570) ||
    (120572 <= code && code <= 120596) || (120598 <= code && code <= 120628) ||
    (120630 <= code && code <= 120654) || (120656 <= code && code <= 120686) ||
    (120688 <= code && code <= 120712) || (120714 <= code && code <= 120744) ||
    (120746 <= code && code <= 120770) || (120772 <= code && code <= 120779) ||
    (120782 <= code && code <= 120831) || (121344 <= code && code <= 121398) ||
    (121403 <= code && code <= 121452) || code == 121461 || code == 121476 ||
    (121499 <= code && code <= 121503) || (121505 <= code && code <= 121519) ||
    (124928 <= code && code <= 125124) || (125136 <= code && code <= 125142) ||
    (126464 <= code && code <= 126467) || (126469 <= code && code <= 126495) ||
    (126497 <= code && code <= 126498) || code == 126500 || code == 126503 ||
    (126505 <= code && code <= 126514) || (126516 <= code && code <= 126519) ||
    code == 126521 || code == 126523 || code == 126530 || code == 126535
}

/// Whether `code` is a word character from U+1D49E to U+1EE47.
fn is_word_code_12(code: u32) -> (r: bool)
    ensures
        r == word_code_12(code),
{
    (119966 <= code && code <= 119967) || code == 119970 ||
    (119973 <= code && code <= 119974) || (119977 <= code && code <= 119980) ||
    (119982 <= code && code <= 119993) || code == 119995 ||
    (119997 <= code && code <= 120003) || (120005 <= code && code <= 120069) ||
    (120071 <= code && code <= 120074) || (120077 <= code && code <= 120084) ||
    (120086 <= code && code <= 120092) || (120094 <= code && code <= 120121) ||
    (120123 <= code && code <= 120126) || (120128 <= code && code <= 120132) ||
    code == 120134 || (120138 <= code && code <= 120144) ||
    (120146 <= code && code <= 120485) || (120488 <= code && code <= 120512) ||
    (120514 <= code && code <= 120538) || (120540 <= code && code <= 120570) ||
    (120572 <= code && code <= 120596) || (120598 <= code && code <= 120628) ||
    (120630 <= code && code <= 120654) || (120656 <= code && code <= 120686) ||
    (120688 <= code && code <= 120712) || (120714 <= code && code <= 120744) ||
    (120746 <= code && code <= 120770) || (120772 <= code && code <= 120779) ||
    (120782 <= code && code <= 120831) || (121344 <= code && code <= 121398) ||
    (121403 <= code && code <= 121452) || code == 121461 || code == 121476 ||
    (121499 <= code && code <= 121503) || (121505 <= code && code <= 121519) ||
    (124928 <= code && code <= 125124) || (125136 <= code && code <= 125142) ||
    (126464 <= code && code <= 126467) || (126469 <= code && code <= 126495) ||
    (126497 <= code && code <= 126498) || code == 126500 || code == 126503 ||
    (126505 <= code && code <= 126514) || (126516 <= code && code <= 126519) ||
    code == 126521 || code == 126523 || code == 126530 || code == 126535
}

/// The word characters from U+1EE49 to U+E01EF.
pub open spec fn word_code_13(code: u32) -> bool {
    code == 126537 || code == 126539 || (126541 <= code && code <= 126543) ||
    (126545 <= code && code <= 126546) || code == 126548 || code == 126551 ||
    code == 126553 || code == 126555 || code == 126557 || code == 126559 ||
    (126561 <= code && code <= 126562) || code == 126564 ||
    (126567 <= code && code <= 126570) || (126572 <= code && code <= 126578) ||
    (126580 <= code && code <= 126583) || (126585 <= code && code <= 126588) ||
    code == 126590 || (126592 <= code && code <= 126601) ||
    (126603 <= code && code <= 126619) || (126625 <= code && code <= 126627) ||
    (126629 <= code && code <= 126633) || (126635 <= code && code <= 126651) ||
    (127280 <= code && code <= 127305) || (127312 <= code && code <= 127337) ||
    (127344 <= code && code <= 127369) || (131072 <= code && code <= 173782) ||
    (173824 <= code && code <= 177972) || (177984 <= code && code <= 178205) ||
    (178208 <= code && code <= 183969) || (194560 <= code && code <= 195101) ||
    (917760 <= code && code <= 917999)
}

/// Whether `code` is a word character from U+1EE49 to U+E01EF.
fn is_word_code_13(code: u32) -> (r: bool)
    ensures
        r == word_code_13(code),
{
    code == 126537 || code == 126539 || (126541 <= code && code <= 126543) ||
    (126545 <= code && code <= 126546) || code == 126548 || code == 126551 ||
    code == 126553 || code == 126555 || code == 126557 || code == 126559 ||
    (126561 <= code && code <= 126562) || code == 126564 ||
    (126567 <= code && code <= 126570) || (126572 <= code && code <= 126578) ||
    (126580 <= code && code <= 126583) || (126585 <= code && code <= 126588) ||
    code == 126590 || (126592 <= code && code <= 126601) ||
    (126603 <= code && code <= 126619) || (126625 <= code && code <= 126627) ||
    (126629 <= code && code <= 126633) || (126635 <= code && code <= 126651) ||
    (127280 <= code && code <= 127305) || (127312 <= code && code <= 127337) ||
    (127344 <= code && code <= 127369) || (131072 <= code && code <= 173782) ||
    (173824 <= code && code <= 177972) || (177984 <= code && code <= 178205) ||
    (178208 <= code && code <= 183969) || (194560 <= code && code <= 195101) ||
    (917760 <= code && code <= 917999)
}

/// Whether the character with this code point is a word character.
pub open spec fn is_word_code(code: u32) -> bool {
    word_code_0(code)
        || word_code_1(code)
        || word_code_2(code)
        || word_code_3(code)
        || word_code_4(code)
        || word_code_5(code)
        || word_code_6(code)
        || word_code_7(code)
        || word_code_8(code)
        || word_code_9(code)
        || word_code_10(code)
        || word_code_11(code)
        || word_code_12(code)
        || word_code_13(code)
}

/// Whether `c` is a word character.
pub open spec fn is_word_char(c: char) -> bool {
    is_word_code(c as u32)
}

/// Whether `c` is a word character.
pub fn is_word(c: char) -> (r: bool)
    ensures
        r == is_word_char(c),
{
    let code = c as u32;
    if code <= 2139 {
        is_word_code_0(code)
    } else if code <= 2819 {
        is_word_code_1(code)
    } else if code <= 3257 {
        is_word_code_2(code)
    } else if code <= 3780 {
        is_word_code_3(code)
    } else if code <= 5900 {
        is_word_code_4(code)
    } else if code <= 8027 {
        is_word_code_5(code)
    } else if code <= 11710 {
        is_word_code_6(code)
    } else if code <= 43609 {
        is_word_code_7(code)
    } else if code <= 65500 {
        is_word_code_8(code)
    } else if code <= 68220 {
        is_word_code_9(code)
    } else if code <= 70853 {
        is_word_code_10(code)
    } else if code <= 119964 {
        is_word_code_11(code)
    } else if code <= 126535 {
        is_word_code_12(code)
    } else {
        is_word_code_13(code)
    }
}

} // verus!

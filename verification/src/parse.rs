//! Parsing of the config file content.  The grammar is JSON as the
//! config shape needs it: an object whose known keys
//! (`dnsProvider` and the four provider records) carry strings,
//! `null`, or nested records of optional strings; unknown keys carry
//! any JSON value and are ignored; missing keys mean "absent".
//! Duplicate known keys, wrongly typed known values, trailing input
//! and malformed JSON are rejected.
//!
//! Every executable parser returns exactly what its spec-level twin
//! (`sp_*`) denotes, so the whole accepted language and the value
//! parsed from it are pinned down mathematically.

use vstd::prelude::*;
use vstd::string::*;
use crate::config::{
    CloudflareConfig, CloudflareV, Config, ConfigV, GithubConfig, GithubV, GodaddyConfig, GodaddyV,
    NamecheapConfig, NamecheapV,
};
use crate::errors::ConfigError;
use crate::text::{push_char, str_eq};

verus! {

/// JSON whitespace.
pub open spec fn is_ws(c: char) -> bool {
    c == ' ' || c == '\t' || c == '\n' || c == '\r'
}

/// The first index at or after `i` holding no whitespace.
pub open spec fn sp_ws(s: Seq<char>, i: int) -> int
    decreases s.len() - i,
{
    if 0 <= i && i < s.len() && is_ws(s[i]) {
        sp_ws(s, i + 1)
    } else {
        i
    }
}


/// The literal `lit` occurs in `s` at position `i`.
pub open spec fn sp_match_lit(s: Seq<char>, i: int, lit: Seq<char>) -> bool {
    0 <= i && i + lit.len() <= s.len() && s.subrange(i, i + lit.len()) == lit
}

/// The numeric value of a hexadecimal digit, or 16 for any other
/// character.
pub open spec fn hex_val(c: char) -> int {
    let u = c as u32;
    if 48 <= u && u <= 57 {
        u - 48
    } else if 97 <= u && u <= 102 {
        u - 87
    } else if 65 <= u && u <= 70 {
        u - 55
    } else {
        16
    }
}

/// A string body, from just after the opening quote to the closing
/// quote: the unescaped content and the index after the closing
/// quote.  Unescaped control characters, bad escapes, escapes naming
/// surrogate code points and unterminated strings fail.
pub open spec fn sp_str_body(s: Seq<char>, i: int) -> Option<(Seq<char>, int)>
    decreases s.len() - i,
{
    if !(0 <= i && i < s.len()) {
        Option::None
    } else {
        let c = s[i];
        if c == '"' {
            Option::Some((Seq::empty(), i + 1))
        } else if c == '\\' {
            if i + 1 < s.len() {
                let e = s[i + 1];
                if e == 'u' {
                    if i + 6 <= s.len() && hex_val(s[i + 2]) < 16 && hex_val(s[i + 3]) < 16
                        && hex_val(s[i + 4]) < 16 && hex_val(s[i + 5]) < 16 {
                        let v = hex_val(s[i + 2]) * 4096 + hex_val(s[i + 3]) * 256 + hex_val(
                            s[i + 4],
                        ) * 16 + hex_val(s[i + 5]);
                        if v < 0xD800 || v >= 0xE000 {
                            sp_cons(((v as u32) as char), sp_str_body(s, i + 6))
                        } else {
                            Option::None
                        }
                    } else {
                        Option::None
                    }
                } else if e == '"' || e == '\\' || e == '/' {
                    sp_cons(e, sp_str_body(s, i + 2))
                } else if e == 'b' {
                    sp_cons('\u{8}', sp_str_body(s, i + 2))
                } else if e == 'f' {
                    sp_cons('\u{c}', sp_str_body(s, i + 2))
                } else if e == 'n' {
                    sp_cons('\n', sp_str_body(s, i + 2))
                } else if e == 'r' {
                    sp_cons('\r', sp_str_body(s, i + 2))
                } else if e == 't' {
                    sp_cons('\t', sp_str_body(s, i + 2))
                } else {
                    Option::None
                }
            } else {
                Option::None
            }
        } else if (c as u32) < 32 {
            Option::None
        } else {
            sp_cons(c, sp_str_body(s, i + 1))
        }
    }
}

/// Prepends one decoded character to a string-body result.
pub open spec fn sp_cons(c: char, rest: Option<(Seq<char>, int)>) -> Option<(Seq<char>, int)> {
    match rest {
        Option::Some((t, j)) => Option::Some((seq![c] + t, j)),
        Option::None => Option::None,
    }
}

/// A quoted JSON string starting at `i`.
pub open spec fn sp_string(s: Seq<char>, i: int) -> Option<(Seq<char>, int)> {
    if 0 <= i && i < s.len() && s[i] == '"' {
        sp_str_body(s, i + 1)
    } else {
        Option::None
    }
}


/// The end of the run of decimal digits starting at `i`.
pub open spec fn sp_digits(s: Seq<char>, i: int) -> int
    decreases s.len() - i,
{
    if 0 <= i && i < s.len() && 48 <= s[i] as u32 && s[i] as u32 <= 57 {
        sp_digits(s, i + 1)
    } else {
        i
    }
}

/// A digit run stays between `i` and the end.
pub proof fn lemma_sp_digits_bounds(s: Seq<char>, i: int)
    requires
        0 <= i <= s.len(),
    ensures
        i <= sp_digits(s, i) <= s.len(),
    decreases s.len() - i,
{
    if i < s.len() && 48 <= s[i] as u32 && s[i] as u32 <= 57 {
        lemma_sp_digits_bounds(s, i + 1);
    }
}

/// The index after a JSON number starting at `i`, if one starts
/// there: optional minus, an integer part without a stray leading
/// zero, an optional fraction, an optional exponent.
pub open spec fn sp_num_end(s: Seq<char>, i: int) -> Option<int> {
    if !(0 <= i && i <= s.len()) {
        Option::None
    } else {
        let j0 = if i < s.len() && s[i] == '-' {
            i + 1
        } else {
            i
        };
        if !(j0 < s.len() && 48 <= s[j0] as u32 && s[j0] as u32 <= 57) {
            Option::None
        } else {
            let j1 = if s[j0] == '0' {
                j0 + 1
            } else {
                sp_digits(s, j0)
            };
            if !(i <= j1 <= s.len()) {
                Option::None
            } else {
                let j2 = if j1 < s.len() && s[j1] == '.' {
                    if j1 + 1 < s.len() && 48 <= s[j1 + 1] as u32 && s[j1 + 1] as u32 <= 57 {
                        sp_digits(s, j1 + 1)
                    } else {
                        -1
                    }
                } else {
                    j1
                };
                if !(i <= j2 <= s.len()) {
                    Option::None
                } else {
                    if j2 < s.len() && (s[j2] == 'e' || s[j2] == 'E') {
                        let j3 = if j2 + 1 < s.len() && (s[j2 + 1] == '+' || s[j2 + 1] == '-') {
                            j2 + 2
                        } else {
                            j2 + 1
                        };
                        if j3 < s.len() && 48 <= s[j3] as u32 && s[j3] as u32 <= 57 {
                            Option::Some(sp_digits(s, j3))
                        } else {
                            Option::None
                        }
                    } else {
                        Option::Some(j2)
                    }
                }
            }
        }
    }
}

/// The index after any JSON value starting at `i`, if one starts
/// there; the value itself is not kept.  Used for unknown keys.
pub open spec fn sp_skip_value(s: Seq<char>, i: int) -> Option<int>
    decreases s.len() - i, 0int,
{
    if !(0 <= i && i < s.len()) {
        Option::None
    } else {
        let c = s[i];
        if c == '"' {
            match sp_str_body(s, i + 1) {
                Option::Some((_t, j)) => Option::Some(j),
                Option::None => Option::None,
            }
        } else if c == '{' {
            sp_skip_members(s, i + 1, true)
        } else if c == '[' {
            sp_skip_elems(s, i + 1, true)
        } else if c == 't' {
            if sp_match_lit(s, i, "true"@) {
                Option::Some(i + 4)
            } else {
                Option::None
            }
        } else if c == 'f' {
            if sp_match_lit(s, i, "false"@) {
                Option::Some(i + 5)
            } else {
                Option::None
            }
        } else if c == 'n' {
            if sp_match_lit(s, i, "null"@) {
                Option::Some(i + 4)
            } else {
                Option::None
            }
        } else {
            sp_num_end(s, i)
        }
    }
}

/// The index after the remaining members of an object being skipped,
/// starting just after `{` (`first`) or just after a comma.
pub open spec fn sp_skip_members(s: Seq<char>, i: int, first: bool) -> Option<int>
    decreases s.len() - i, 2int,
{
    if !(0 <= i && i <= s.len()) {
        Option::None
    } else {
        let j = sp_ws(s, i);
        if !(i <= j && j < s.len()) {
            Option::None
        } else if first && s[j] == '}' {
            Option::Some(j + 1)
        } else if s[j] == '"' {
            match sp_str_body(s, j + 1) {
                Option::None => Option::None,
                Option::Some((_k, j2)) => {
                    if !(j < j2 && j2 <= s.len()) {
                        Option::None
                    } else {
                        let j3 = sp_ws(s, j2);
                        if !(j2 <= j3 && j3 < s.len() && s[j3] == ':') {
                            Option::None
                        } else {
                            let j4 = sp_ws(s, j3 + 1);
                            if !(j3 < j4 && j4 <= s.len()) {
                                Option::None
                            } else {
                                match sp_skip_value(s, j4) {
                                    Option::None => Option::None,
                                    Option::Some(j5) => {
                                        if !(j4 < j5 && j5 <= s.len()) {
                                            Option::None
                                        } else {
                                            let j6 = sp_ws(s, j5);
                                            if !(j5 <= j6 && j6 < s.len()) {
                                                Option::None
                                            } else if s[j6] == ',' {
                                                sp_skip_members(s, j6 + 1, false)
                                            } else if s[j6] == '}' {
                                                Option::Some(j6 + 1)
                                            } else {
                                                Option::None
                                            }
                                        }
                                    },
                                }
                            }
                        }
                    }
                },
            }
        } else {
            Option::None
        }
    }
}

/// An optional string value: `null` yields an absent field, a JSON
/// string a present one; anything else is a shape error.
pub open spec fn sp_opt_string_value(s: Seq<char>, i: int) -> Option<(Option<Seq<char>>, int)> {
    if sp_match_lit(s, i, "null"@) {
        Option::Some((Option::None, i + 4))
    } else {
        match sp_string(s, i) {
            Option::Some((t, j)) => Option::Some((Option::Some(t), j)),
            Option::None => Option::None,
        }
    }
}

/// Which GoDaddy field a key names, or -1.
pub open spec fn gd_key_index(k: Seq<char>) -> int {
    if k == "apiKey"@ { 0 } else if k == "apiSecret"@ { 1 } else if k == "environment"@ { 2 }
    else { -1 }
}

/// Which Namecheap field a key names, or -1.
pub open spec fn nc_key_index(k: Seq<char>) -> int {
    if k == "apiUser"@ { 0 } else if k == "apiKey"@ { 1 } else if k == "clientIp"@ { 2 }
    else { -1 }
}

/// The remaining members of a GoDaddy record, starting just after `{`
/// (`first`) or a comma; `s0..s2` say which fields were already seen.
pub open spec fn sp_gd_members(
    s: Seq<char>,
    i: int,
    acc: GodaddyV,
    s0: bool,
    s1: bool,
    s2: bool,
    first: bool,
) -> Option<(GodaddyV, int)>
    decreases s.len() - i,
{
    if !(0 <= i && i <= s.len()) {
        Option::None
    } else {
        let j = sp_ws(s, i);
        if !(i <= j && j < s.len()) {
            Option::None
        } else if first && s[j] == '}' {
            Option::Some((acc, j + 1))
        } else if s[j] == '"' {
            match sp_str_body(s, j + 1) {
                Option::None => Option::None,
                Option::Some((k, j2)) => {
                    if !(j < j2 && j2 <= s.len()) {
                        Option::None
                    } else {
                        let j3 = sp_ws(s, j2);
                        if !(j2 <= j3 && j3 < s.len() && s[j3] == ':') {
                            Option::None
                        } else {
                            let j4 = sp_ws(s, j3 + 1);
                            if !(j3 < j4 && j4 <= s.len()) {
                                Option::None
                            } else {
                                let ki = gd_key_index(k);
                                let step: Option<(GodaddyV, bool, bool, bool, int)> = if ki == 0 {
                                    if s0 {
                                        Option::None
                                    } else {
                                        match sp_opt_string_value(s, j4) {
                                            Option::Some((v, j5)) => Option::Some(
                                                (GodaddyV { api_key: v, ..acc }, true, s1, s2, j5),
                                            ),
                                            Option::None => Option::None,
                                        }
                                    }
                                } else if ki == 1 {
                                    if s1 {
                                        Option::None
                                    } else {
                                        match sp_opt_string_value(s, j4) {
                                            Option::Some((v, j5)) => Option::Some(
                                                (GodaddyV { api_secret: v, ..acc }, s0, true, s2, j5),
                                            ),
                                            Option::None => Option::None,
                                        }
                                    }
                                } else if ki == 2 {
                                    if s2 {
                                        Option::None
                                    } else {
                                        match sp_opt_string_value(s, j4) {
                                            Option::Some((v, j5)) => Option::Some(
                                                (GodaddyV { environment: v, ..acc }, s0, s1, true, j5),
                                            ),
                                            Option::None => Option::None,
                                        }
                                    }
                                } else {
                                    match sp_skip_value(s, j4) {
                                        Option::Some(j5) => Option::Some((acc, s0, s1, s2, j5)),
                                        Option::None => Option::None,
                                    }
                                };
                                match step {
                                    Option::None => Option::None,
                                    Option::Some((acc2, t0, t1, t2, j5)) => {
                                        if !(j4 < j5 && j5 <= s.len()) {
                                            Option::None
                                        } else {
                                            let j6 = sp_ws(s, j5);
                                            if !(j5 <= j6 && j6 < s.len()) {
                                                Option::None
                                            } else if s[j6] == ',' {
                                                sp_gd_members(s, j6 + 1, acc2, t0, t1, t2, false)
                                            } else if s[j6] == '}' {
                                                Option::Some((acc2, j6 + 1))
                                            } else {
                                                Option::None
                                            }
                                        }
                                    },
                                }
                            }
                        }
                    }
                },
            }
        } else {
            Option::None
        }
    }
}

/// The remaining members of a Cloudflare record.
pub open spec fn sp_cf_members(
    s: Seq<char>,
    i: int,
    acc: CloudflareV,
    s0: bool,
    first: bool,
) -> Option<(CloudflareV, int)>
    decreases s.len() - i,
{
    if !(0 <= i && i <= s.len()) {
        Option::None
    } else {
        let j = sp_ws(s, i);
        if !(i <= j && j < s.len()) {
            Option::None
        } else if first && s[j] == '}' {
            Option::Some((acc, j + 1))
        } else if s[j] == '"' {
            match sp_str_body(s, j + 1) {
                Option::None => Option::None,
                Option::Some((k, j2)) => {
                    if !(j < j2 && j2 <= s.len()) {
                        Option::None
                    } else {
                        let j3 = sp_ws(s, j2);
                        if !(j2 <= j3 && j3 < s.len() && s[j3] == ':') {
                            Option::None
                        } else {
                            let j4 = sp_ws(s, j3 + 1);
                            if !(j3 < j4 && j4 <= s.len()) {
                                Option::None
                            } else {
                                let step: Option<(CloudflareV, bool, int)> = if k == "apiToken"@ {
                                    if s0 {
                                        Option::None
                                    } else {
                                        match sp_opt_string_value(s, j4) {
                                            Option::Some((v, j5)) => Option::Some(
                                                (CloudflareV { api_token: v }, true, j5),
                                            ),
                                            Option::None => Option::None,
                                        }
                                    }
                                } else {
                                    match sp_skip_value(s, j4) {
                                        Option::Some(j5) => Option::Some((acc, s0, j5)),
                                        Option::None => Option::None,
                                    }
                                };
                                match step {
                                    Option::None => Option::None,
                                    Option::Some((acc2, t0, j5)) => {
                                        if !(j4 < j5 && j5 <= s.len()) {
                                            Option::None
                                        } else {
                                            let j6 = sp_ws(s, j5);
                                            if !(j5 <= j6 && j6 < s.len()) {
                                                Option::None
                                            } else if s[j6] == ',' {
                                                sp_cf_members(s, j6 + 1, acc2, t0, false)
                                            } else if s[j6] == '}' {
                                                Option::Some((acc2, j6 + 1))
                                            } else {
                                                Option::None
                                            }
                                        }
                                    },
                                }
                            }
                        }
                    }
                },
            }
        } else {
            Option::None
        }
    }
}

/// The remaining members of a Namecheap record.
pub open spec fn sp_nc_members(
    s: Seq<char>,
    i: int,
    acc: NamecheapV,
    s0: bool,
    s1: bool,
    s2: bool,
    first: bool,
) -> Option<(NamecheapV, int)>
    decreases s.len() - i,
{
    if !(0 <= i && i <= s.len()) {
        Option::None
    } else {
        let j = sp_ws(s, i);
        if !(i <= j && j < s.len()) {
            Option::None
        } else if first && s[j] == '}' {
            Option::Some((acc, j + 1))
        } else if s[j] == '"' {
            match sp_str_body(s, j + 1) {
                Option::None => Option::None,
                Option::Some((k, j2)) => {
                    if !(j < j2 && j2 <= s.len()) {
                        Option::None
                    } else {
                        let j3 = sp_ws(s, j2);
                        if !(j2 <= j3 && j3 < s.len() && s[j3] == ':') {
                            Option::None
                        } else {
                            let j4 = sp_ws(s, j3 + 1);
                            if !(j3 < j4 && j4 <= s.len()) {
                                Option::None
                            } else {
                                let ki = nc_key_index(k);
                                let step: Option<(NamecheapV, bool, bool, bool, int)> = if ki == 0 {
                                    if s0 {
                                        Option::None
                                    } else {
                                        match sp_opt_string_value(s, j4) {
                                            Option::Some((v, j5)) => Option::Some(
                                                (NamecheapV { api_user: v, ..acc }, true, s1, s2, j5),
                                            ),
                                            Option::None => Option::None,
                                        }
                                    }
                                } else if ki == 1 {
                                    if s1 {
                                        Option::None
                                    } else {
                                        match sp_opt_string_value(s, j4) {
                                            Option::Some((v, j5)) => Option::Some(
                                                (NamecheapV { api_key: v, ..acc }, s0, true, s2, j5),
                                            ),
                                            Option::None => Option::None,
                                        }
                                    }
                                } else if ki == 2 {
                                    if s2 {
                                        Option::None
                                    } else {
                                        match sp_opt_string_value(s, j4) {
                                            Option::Some((v, j5)) => Option::Some(
                                                (NamecheapV { client_ip: v, ..acc }, s0, s1, true, j5),
                                            ),
                                            Option::None => Option::None,
                                        }
                                    }
                                } else {
                                    match sp_skip_value(s, j4) {
                                        Option::Some(j5) => Option::Some((acc, s0, s1, s2, j5)),
                                        Option::None => Option::None,
                                    }
                                };
                                match step {
                                    Option::None => Option::None,
                                    Option::Some((acc2, t0, t1, t2, j5)) => {
                                        if !(j4 < j5 && j5 <= s.len()) {
                                            Option::None
                                        } else {
                                            let j6 = sp_ws(s, j5);
                                            if !(j5 <= j6 && j6 < s.len()) {
                                                Option::None
                                            } else if s[j6] == ',' {
                                                sp_nc_members(s, j6 + 1, acc2, t0, t1, t2, false)
                                            } else if s[j6] == '}' {
                                                Option::Some((acc2, j6 + 1))
                                            } else {
                                                Option::None
                                            }
                                        }
                                    },
                                }
                            }
                        }
                    }
                },
            }
        } else {
            Option::None
        }
    }
}

/// The remaining members of a GitHub record.
pub open spec fn sp_gh_members(
    s: Seq<char>,
    i: int,
    acc: GithubV,
    s0: bool,
    first: bool,
) -> Option<(GithubV, int)>
    decreases s.len() - i,
{
    if !(0 <= i && i <= s.len()) {
        Option::None
    } else {
        let j = sp_ws(s, i);
        if !(i <= j && j < s.len()) {
            Option::None
        } else if first && s[j] == '}' {
            Option::Some((acc, j + 1))
        } else if s[j] == '"' {
            match sp_str_body(s, j + 1) {
                Option::None => Option::None,
                Option::Some((k, j2)) => {
                    if !(j < j2 && j2 <= s.len()) {
                        Option::None
                    } else {
                        let j3 = sp_ws(s, j2);
                        if !(j2 <= j3 && j3 < s.len() && s[j3] == ':') {
                            Option::None
                        } else {
                            let j4 = sp_ws(s, j3 + 1);
                            if !(j3 < j4 && j4 <= s.len()) {
                                Option::None
                            } else {
                                let step: Option<(GithubV, bool, int)> = if k == "token"@ {
                                    if s0 {
                                        Option::None
                                    } else {
                                        match sp_opt_string_value(s, j4) {
                                            Option::Some((v, j5)) => Option::Some(
                                                (GithubV { token: v }, true, j5),
                                            ),
                                            Option::None => Option::None,
                                        }
                                    }
                                } else {
                                    match sp_skip_value(s, j4) {
                                        Option::Some(j5) => Option::Some((acc, s0, j5)),
                                        Option::None => Option::None,
                                    }
                                };
                                match step {
                                    Option::None => Option::None,
                                    Option::Some((acc2, t0, j5)) => {
                                        if !(j4 < j5 && j5 <= s.len()) {
                                            Option::None
                                        } else {
                                            let j6 = sp_ws(s, j5);
                                            if !(j5 <= j6 && j6 < s.len()) {
                                                Option::None
                                            } else if s[j6] == ',' {
                                                sp_gh_members(s, j6 + 1, acc2, t0, false)
                                            } else if s[j6] == '}' {
                                                Option::Some((acc2, j6 + 1))
                                            } else {
                                                Option::None
                                            }
                                        }
                                    },
                                }
                            }
                        }
                    }
                },
            }
        } else {
            Option::None
        }
    }
}

/// A GoDaddy record value: `null` or a nested record.
pub open spec fn sp_opt_gd_value(s: Seq<char>, i: int) -> Option<(Option<GodaddyV>, int)> {
    if sp_match_lit(s, i, "null"@) {
        Option::Some((Option::None, i + 4))
    } else if 0 <= i && i < s.len() && s[i] == '{' {
        match sp_gd_members(s, i + 1, GodaddyV::all_absent(), false, false, false, true) {
            Option::Some((g, j)) => Option::Some((Option::Some(g), j)),
            Option::None => Option::None,
        }
    } else {
        Option::None
    }
}

/// A Cloudflare record value: `null` or a nested record.
pub open spec fn sp_opt_cf_value(s: Seq<char>, i: int) -> Option<(Option<CloudflareV>, int)> {
    if sp_match_lit(s, i, "null"@) {
        Option::Some((Option::None, i + 4))
    } else if 0 <= i && i < s.len() && s[i] == '{' {
        match sp_cf_members(s, i + 1, CloudflareV::all_absent(), false, true) {
            Option::Some((g, j)) => Option::Some((Option::Some(g), j)),
            Option::None => Option::None,
        }
    } else {
        Option::None
    }
}

/// A Namecheap record value: `null` or a nested record.
pub open spec fn sp_opt_nc_value(s: Seq<char>, i: int) -> Option<(Option<NamecheapV>, int)> {
    if sp_match_lit(s, i, "null"@) {
        Option::Some((Option::None, i + 4))
    } else if 0 <= i && i < s.len() && s[i] == '{' {
        match sp_nc_members(s, i + 1, NamecheapV::all_absent(), false, false, false, true) {
            Option::Some((g, j)) => Option::Some((Option::Some(g), j)),
            Option::None => Option::None,
        }
    } else {
        Option::None
    }
}

/// A GitHub record value: `null` or a nested record.
pub open spec fn sp_opt_gh_value(s: Seq<char>, i: int) -> Option<(Option<GithubV>, int)> {
    if sp_match_lit(s, i, "null"@) {
        Option::Some((Option::None, i + 4))
    } else if 0 <= i && i < s.len() && s[i] == '{' {
        match sp_gh_members(s, i + 1, GithubV::all_absent(), false, true) {
            Option::Some((g, j)) => Option::Some((Option::Some(g), j)),
            Option::None => Option::None,
        }
    } else {
        Option::None
    }
}

/// Which config field a key names, or -1.
pub open spec fn cfg_key_index(k: Seq<char>) -> int {
    if k == "dnsProvider"@ { 0 } else if k == "godaddy"@ { 1 } else if k == "cloudflare"@ { 2 }
    else if k == "namecheap"@ { 3 } else if k == "github"@ { 4 } else { -1 }
}

/// The remaining members of the top-level config object.
pub open spec fn sp_cfg_members(
    s: Seq<char>,
    i: int,
    acc: ConfigV,
    s0: bool,
    s1: bool,
    s2: bool,
    s3: bool,
    s4: bool,
    first: bool,
) -> Option<(ConfigV, int)>
    decreases s.len() - i,
{
    if !(0 <= i && i <= s.len()) {
        Option::None
    } else {
        let j = sp_ws(s, i);
        if !(i <= j && j < s.len()) {
            Option::None
        } else if first && s[j] == '}' {
            Option::Some((acc, j + 1))
        } else if s[j] == '"' {
            match sp_str_body(s, j + 1) {
                Option::None => Option::None,
                Option::Some((k, j2)) => {
                    if !(j < j2 && j2 <= s.len()) {
                        Option::None
                    } else {
                        let j3 = sp_ws(s, j2);
                        if !(j2 <= j3 && j3 < s.len() && s[j3] == ':') {
                            Option::None
                        } else {
                            let j4 = sp_ws(s, j3 + 1);
                            if !(j3 < j4 && j4 <= s.len()) {
                                Option::None
                            } else {
                                let ki = cfg_key_index(k);
                                let step: Option<(ConfigV, bool, bool, bool, bool, bool, int)> = if ki == 0 {
                                    if s0 {
                                        Option::None
                                    } else {
                                        match sp_opt_string_value(s, j4) {
                                            Option::Some((v, j5)) => Option::Some(
                                                (ConfigV { dns_provider: v, ..acc }, true, s1, s2, s3, s4, j5),
                                            ),
                                            Option::None => Option::None,
                                        }
                                    }
                                } else if ki == 1 {
                                    if s1 {
                                        Option::None
                                    } else {
                                        match sp_opt_gd_value(s, j4) {
                                            Option::Some((v, j5)) => Option::Some(
                                                (ConfigV { godaddy: v, ..acc }, s0, true, s2, s3, s4, j5),
                                            ),
                                            Option::None => Option::None,
                                        }
                                    }
                                } else if ki == 2 {
                                    if s2 {
                                        Option::None
                                    } else {
                                        match sp_opt_cf_value(s, j4) {
                                            Option::Some((v, j5)) => Option::Some(
                                                (ConfigV { cloudflare: v, ..acc }, s0, s1, true, s3, s4, j5),
                                            ),
                                            Option::None => Option::None,
                                        }
                                    }
                                } else if ki == 3 {
                                    if s3 {
                                        Option::None
                                    } else {
                                        match sp_opt_nc_value(s, j4) {
                                            Option::Some((v, j5)) => Option::Some(
                                                (ConfigV { namecheap: v, ..acc }, s0, s1, s2, true, s4, j5),
                                            ),
                                            Option::None => Option::None,
                                        }
                                    }
                                } else if ki == 4 {
                                    if s4 {
                                        Option::None
                                    } else {
                                        match sp_opt_gh_value(s, j4) {
                                            Option::Some((v, j5)) => Option::Some(
                                                (ConfigV { github: v, ..acc }, s0, s1, s2, s3, true, j5),
                                            ),
                                            Option::None => Option::None,
                                        }
                                    }
                                } else {
                                    match sp_skip_value(s, j4) {
                                        Option::Some(j5) => Option::Some((acc, s0, s1, s2, s3, s4, j5)),
                                        Option::None => Option::None,
                                    }
                                };
                                match step {
                                    Option::None => Option::None,
                                    Option::Some((acc2, t0, t1, t2, t3, t4, j5)) => {
                                        if !(j4 < j5 && j5 <= s.len()) {
                                            Option::None
                                        } else {
                                            let j6 = sp_ws(s, j5);
                                            if !(j5 <= j6 && j6 < s.len()) {
                                                Option::None
                                            } else if s[j6] == ',' {
                                                sp_cfg_members(s, j6 + 1, acc2, t0, t1, t2, t3, t4, false)
                                            } else if s[j6] == '}' {
                                                Option::Some((acc2, j6 + 1))
                                            } else {
                                                Option::None
                                            }
                                        }
                                    },
                                }
                            }
                        }
                    }
                },
            }
        } else {
            Option::None
        }
    }
}

/// The whole config document: one object, nothing but whitespace
/// around it, absent keys meaning absent fields.
pub open spec fn sp_config_doc(s: Seq<char>) -> Option<ConfigV> {
    let i = sp_ws(s, 0);
    if !(0 <= i && i < s.len() && s[i] == '{') {
        Option::None
    } else {
        match sp_cfg_members(
            s,
            i + 1,
            ConfigV::all_absent(),
            false,
            false,
            false,
            false,
            false,
            true,
        ) {
            Option::None => Option::None,
            Option::Some((c, j)) => {
                if sp_ws(s, j) == s.len() {
                    Option::Some(c)
                } else {
                    Option::None
                }
            },
        }
    }
}

/// The index after the remaining elements of an array being skipped,
/// starting just after `[` (`first`) or just after a comma.
pub open spec fn sp_skip_elems(s: Seq<char>, i: int, first: bool) -> Option<int>
    decreases s.len() - i, 2int,
{
    if !(0 <= i && i <= s.len()) {
        Option::None
    } else {
        let j = sp_ws(s, i);
        if !(i <= j && j < s.len()) {
            Option::None
        } else if first && s[j] == ']' {
            Option::Some(j + 1)
        } else {
            match sp_skip_value(s, j) {
                Option::None => Option::None,
                Option::Some(j2) => {
                    if !(j < j2 && j2 <= s.len()) {
                        Option::None
                    } else {
                        let j3 = sp_ws(s, j2);
                        if !(j2 <= j3 && j3 < s.len()) {
                            Option::None
                        } else if s[j3] == ',' {
                            sp_skip_elems(s, j3 + 1, false)
                        } else if s[j3] == ']' {
                            Option::Some(j3 + 1)
                        } else {
                            Option::None
                        }
                    }
                },
            }
        }
    }
}

/// Relies on `char::from_u32`: yields the character with the given
/// code, `None` exactly for surrogates and values beyond the last
/// code point.
pub assume_specification[ char::from_u32 ](v: u32) -> (r: Option<char>)
    ensures
        (v < 0xD800 || (0xE000 <= v && v <= 0x10FFFF)) <==> (r matches Option::Some(c) && c as u32
            == v),
;

/// Relation between an executable index result and its spec twin.
pub open spec fn rel_idx(r: Option<usize>, m: Option<int>) -> bool {
    match (r, m) {
        (Option::Some(a), Option::Some(b)) => a == b,
        (Option::None, Option::None) => true,
        _ => false,
    }
}

/// Relation between an executable string result and its spec twin.
pub open spec fn rel_str(r: Option<(String, usize)>, m: Option<(Seq<char>, int)>) -> bool {
    match (r, m) {
        (Option::Some(a), Option::Some(b)) => a.0@ == b.0 && a.1 == b.1,
        (Option::None, Option::None) => true,
        _ => false,
    }
}

/// Skips whitespace, as `sp_ws` denotes.
fn ws(s: &str, i: usize) -> (r: usize)
    requires
        i <= s@.len(),
    ensures
        r as int == sp_ws(s@, i as int),
        i <= r <= s@.len(),
    decreases s@.len() - i,
{
    let n = s.unicode_len();
    if i < n {
        let c = s.get_char(i);
        if c == ' ' || c == '\t' || c == '\n' || c == '\r' {
            return ws(s, i + 1);
        }
    }
    i
}

/// Tests a literal occurrence, as `sp_match_lit` denotes.
fn match_lit(s: &str, i: usize, lit: &str) -> (r: bool)
    requires
        i <= s@.len(),
    ensures
        r == sp_match_lit(s@, i as int, lit@),
        r ==> i + lit@.len() <= usize::MAX,
{
    let n = s.unicode_len();
    let m = lit.unicode_len();
    if n - i < m {
        return false;
    }
    let mut k: usize = 0;
    while k < m
        invariant
            k <= m,
            i + m <= n,
            n == s@.len(),
            m == lit@.len(),
            forall|t: int| 0 <= t < k ==> s@[i + t] == lit@[t],
        decreases m - k,
    {
        if s.get_char(i + k) != lit.get_char(k) {
            proof {
                assert(s@.subrange(i as int, i + lit@.len())[k as int] == s@[i + k]);
            }
            return false;
        }
        k += 1;
    }
    proof {
        assert(s@.subrange(i as int, i + lit@.len()) =~= lit@);
    }
    true
}

/// The numeric value of a hexadecimal digit, as `hex_val` denotes.
fn hex_val_exec(c: char) -> (v: u32)
    ensures
        v as int == hex_val(c),
{
    let u = c as u32;
    if 48 <= u && u <= 57 {
        u - 48
    } else if 97 <= u && u <= 102 {
        u - 87
    } else if 65 <= u && u <= 70 {
        u - 55
    } else {
        16
    }
}

/// Prepends one decoded character to a string-body result.
fn cons_char(c: char, rest: Option<(String, usize)>) -> (r: Option<(String, usize)>)
    ensures
        rest matches Option::Some(p) ==> (r matches Option::Some(q) && q.0@ == seq![c] + p.0@
            && q.1 == p.1),
        rest is None ==> r is None,
{
    match rest {
        Option::Some((t, j)) => {
            let mut out = String::new();
            push_char(&mut out, c);
            out.append(t.as_str());
            proof {
                assert(out@ =~= seq![c] + t@);
            }
            Option::Some((out, j))
        },
        Option::None => Option::None,
    }
}

/// Parses a string body, as `sp_str_body` denotes.
fn parse_str_body(s: &str, i: usize) -> (r: Option<(String, usize)>)
    requires
        i <= s@.len(),
    ensures
        rel_str(r, sp_str_body(s@, i as int)),
        r matches Option::Some(p) ==> i < p.1 <= s@.len(),
    decreases s@.len() - i,
{
    let n = s.unicode_len();
    if i >= n {
        return Option::None;
    }
    let c = s.get_char(i);
    if c == '"' {
        Option::Some((String::new(), i + 1))
    } else if c == '\\' {
        if i + 1 < n {
            let e = s.get_char(i + 1);
            if e == 'u' {
                if n - i >= 6 {
                    let h2 = hex_val_exec(s.get_char(i + 2));
                    let h3 = hex_val_exec(s.get_char(i + 3));
                    let h4 = hex_val_exec(s.get_char(i + 4));
                    let h5 = hex_val_exec(s.get_char(i + 5));
                    if h2 < 16 && h3 < 16 && h4 < 16 && h5 < 16 {
                        let v: u32 = h2 * 4096 + h3 * 256 + h4 * 16 + h5;
                        if v < 0xD800 || v >= 0xE000 {
                            match char::from_u32(v) {
                                Option::Some(c2) => {
                                    proof {
                                        vstd::utf8::char_u32_cast(c2, v);
                                    }
                                    cons_char(c2, parse_str_body(s, i + 6))
                                },
                                Option::None => {
                                    proof {
                                        assert(false);
                                    }
                                    Option::None
                                },
                            }
                        } else {
                            Option::None
                        }
                    } else {
                        Option::None
                    }
                } else {
                    Option::None
                }
            } else if e == '"' || e == '\\' || e == '/' {
                cons_char(e, parse_str_body(s, i + 2))
            } else if e == 'b' {
                cons_char('\u{8}', parse_str_body(s, i + 2))
            } else if e == 'f' {
                cons_char('\u{c}', parse_str_body(s, i + 2))
            } else if e == 'n' {
                cons_char('\n', parse_str_body(s, i + 2))
            } else if e == 'r' {
                cons_char('\r', parse_str_body(s, i + 2))
            } else if e == 't' {
                cons_char('\t', parse_str_body(s, i + 2))
            } else {
                Option::None
            }
        } else {
            Option::None
        }
    } else if (c as u32) < 32 {
        Option::None
    } else {
        cons_char(c, parse_str_body(s, i + 1))
    }
}

/// Parses a quoted string, as `sp_string` denotes.
fn parse_string(s: &str, i: usize) -> (r: Option<(String, usize)>)
    requires
        i <= s@.len(),
    ensures
        rel_str(r, sp_string(s@, i as int)),
        r matches Option::Some(p) ==> i < p.1 <= s@.len(),
{
    let n = s.unicode_len();
    if i < n && s.get_char(i) == '"' {
        parse_str_body(s, i + 1)
    } else {
        Option::None
    }
}

/// Skips a run of digits, as `sp_digits` denotes.
fn skip_digits(s: &str, i: usize) -> (r: usize)
    requires
        i <= s@.len(),
    ensures
        r as int == sp_digits(s@, i as int),
        i <= r <= s@.len(),
    decreases s@.len() - i,
{
    let n = s.unicode_len();
    if i < n {
        let u = s.get_char(i) as u32;
        if 48 <= u && u <= 57 {
            return skip_digits(s, i + 1);
        }
    }
    i
}

/// Skips a JSON number, as `sp_num_end` denotes.
fn skip_num(s: &str, i: usize) -> (r: Option<usize>)
    requires
        i <= s@.len(),
    ensures
        rel_idx(r, sp_num_end(s@, i as int)),
        r matches Option::Some(j) ==> i < j <= s@.len(),
    decreases s@.len() - i,
{
    let n = s.unicode_len();
    let j0 = if i < n && s.get_char(i) == '-' {
        i + 1
    } else {
        i
    };
    if !(j0 < n) {
        return Option::None;
    }
    let u0 = s.get_char(j0) as u32;
    if !(48 <= u0 && u0 <= 57) {
        return Option::None;
    }
    let j1 = if s.get_char(j0) == '0' {
        j0 + 1
    } else {
        proof {
            lemma_sp_digits_bounds(s@, j0 + 1);
        }
        skip_digits(s, j0)
    };
    let j2 = if j1 < n && s.get_char(j1) == '.' {
        if j1 + 1 < n {
            let u1 = s.get_char(j1 + 1) as u32;
            if 48 <= u1 && u1 <= 57 {
                skip_digits(s, j1 + 1)
            } else {
                return Option::None;
            }
        } else {
            return Option::None;
        }
    } else {
        j1
    };
    if j2 < n {
        let c2 = s.get_char(j2);
        if c2 == 'e' || c2 == 'E' {
            let j3 = if j2 + 1 < n {
                let c3 = s.get_char(j2 + 1);
                if c3 == '+' || c3 == '-' {
                    j2 + 2
                } else {
                    j2 + 1
                }
            } else {
                j2 + 1
            };
            if j3 < n {
                let u3 = s.get_char(j3) as u32;
                if 48 <= u3 && u3 <= 57 {
                    return Option::Some(skip_digits(s, j3));
                }
            }
            return Option::None;
        }
    }
    Option::Some(j2)
}

/// Skips any JSON value, as `sp_skip_value` denotes.
fn skip_value(s: &str, i: usize) -> (r: Option<usize>)
    requires
        i <= s@.len(),
    ensures
        rel_idx(r, sp_skip_value(s@, i as int)),
        r matches Option::Some(j) ==> i < j <= s@.len(),
    decreases s@.len() - i, 0int,
{
    let n = s.unicode_len();
    if i >= n {
        return Option::None;
    }
    let c = s.get_char(i);
    if c == '"' {
        match parse_str_body(s, i + 1) {
            Option::Some((_t, j)) => Option::Some(j),
            Option::None => Option::None,
        }
    } else if c == '{' {
        skip_members(s, i + 1, true)
    } else if c == '[' {
        skip_elems(s, i + 1, true)
    } else if c == 't' {
        if match_lit(s, i, "true") {
            proof {
                reveal_strlit("true");
            }
            Option::Some(i + 4)
        } else {
            Option::None
        }
    } else if c == 'f' {
        if match_lit(s, i, "false") {
            proof {
                reveal_strlit("false");
            }
            Option::Some(i + 5)
        } else {
            Option::None
        }
    } else if c == 'n' {
        if match_lit(s, i, "null") {
            proof {
                reveal_strlit("null");
            }
            Option::Some(i + 4)
        } else {
            Option::None
        }
    } else {
        skip_num(s, i)
    }
}

/// Skips the members of an object, as `sp_skip_members` denotes.
fn skip_members(s: &str, i: usize, first: bool) -> (r: Option<usize>)
    requires
        i <= s@.len(),
    ensures
        rel_idx(r, sp_skip_members(s@, i as int, first)),
        r matches Option::Some(j) ==> i < j <= s@.len(),
    decreases s@.len() - i, 2int,
{
    let n = s.unicode_len();
    let j = ws(s, i);
    if !(j < n) {
        return Option::None;
    }
    if first && s.get_char(j) == '}' {
        return Option::Some(j + 1);
    }
    if s.get_char(j) != '"' {
        return Option::None;
    }
    match parse_str_body(s, j + 1) {
        Option::None => Option::None,
        Option::Some((_k, j2)) => {
            let j3 = ws(s, j2);
            if !(j3 < n && s.get_char(j3) == ':') {
                return Option::None;
            }
            let j4 = ws(s, j3 + 1);
            match skip_value(s, j4) {
                Option::None => Option::None,
                Option::Some(j5) => {
                    let j6 = ws(s, j5);
                    if !(j6 < n) {
                        Option::None
                    } else if s.get_char(j6) == ',' {
                        skip_members(s, j6 + 1, false)
                    } else if s.get_char(j6) == '}' {
                        Option::Some(j6 + 1)
                    } else {
                        Option::None
                    }
                },
            }
        },
    }
}

/// Skips the elements of an array, as `sp_skip_elems` denotes.
fn skip_elems(s: &str, i: usize, first: bool) -> (r: Option<usize>)
    requires
        i <= s@.len(),
    ensures
        rel_idx(r, sp_skip_elems(s@, i as int, first)),
        r matches Option::Some(j) ==> i < j <= s@.len(),
    decreases s@.len() - i, 2int,
{
    let n = s.unicode_len();
    let j = ws(s, i);
    if !(j < n) {
        return Option::None;
    }
    if first && s.get_char(j) == ']' {
        return Option::Some(j + 1);
    }
    match skip_value(s, j) {
        Option::None => Option::None,
        Option::Some(j2) => {
            let j3 = ws(s, j2);
            if !(j3 < n) {
                Option::None
            } else if s.get_char(j3) == ',' {
                skip_elems(s, j3 + 1, false)
            } else if s.get_char(j3) == ']' {
                Option::Some(j3 + 1)
            } else {
                Option::None
            }
        },
    }
}

/// Relation between an executable optional-string result and its
/// spec twin.
pub open spec fn rel_opt_str(
    r: Option<(Option<String>, usize)>,
    m: Option<(Option<Seq<char>>, int)>,
) -> bool {
    match (r, m) {
        (Option::Some(a), Option::Some(b)) => crate::config::opt_str_view(a.0) == b.0 && a.1 == b.1,
        (Option::None, Option::None) => true,
        _ => false,
    }
}

/// Parses a string-or-null value, as `sp_opt_string_value` denotes.
fn parse_opt_string_value(s: &str, i: usize) -> (r: Option<(Option<String>, usize)>)
    requires
        i <= s@.len(),
    ensures
        rel_opt_str(r, sp_opt_string_value(s@, i as int)),
        r matches Option::Some(p) ==> i < p.1 <= s@.len(),
{
    if match_lit(s, i, "null") {
        proof {
            reveal_strlit("null");
        }
        Option::Some((Option::None, i + 4))
    } else {
        match parse_string(s, i) {
            Option::Some((t, j)) => Option::Some((Option::Some(t), j)),
            Option::None => Option::None,
        }
    }
}

/// Relation between an executable GoDaddy result and its spec twin.
pub open spec fn rel_gd(r: Option<(GodaddyConfig, usize)>, m: Option<(GodaddyV, int)>) -> bool {
    match (r, m) {
        (Option::Some(a), Option::Some(b)) => a.0@ == b.0 && a.1 == b.1,
        (Option::None, Option::None) => true,
        _ => false,
    }
}

/// Relation between an executable Cloudflare result and its spec twin.
pub open spec fn rel_cf(r: Option<(CloudflareConfig, usize)>, m: Option<(CloudflareV, int)>) -> bool {
    match (r, m) {
        (Option::Some(a), Option::Some(b)) => a.0@ == b.0 && a.1 == b.1,
        (Option::None, Option::None) => true,
        _ => false,
    }
}

/// Relation between an executable Namecheap result and its spec twin.
pub open spec fn rel_nc(r: Option<(NamecheapConfig, usize)>, m: Option<(NamecheapV, int)>) -> bool {
    match (r, m) {
        (Option::Some(a), Option::Some(b)) => a.0@ == b.0 && a.1 == b.1,
        (Option::None, Option::None) => true,
        _ => false,
    }
}

/// Relation between an executable GitHub result and its spec twin.
pub open spec fn rel_gh(r: Option<(GithubConfig, usize)>, m: Option<(GithubV, int)>) -> bool {
    match (r, m) {
        (Option::Some(a), Option::Some(b)) => a.0@ == b.0 && a.1 == b.1,
        (Option::None, Option::None) => true,
        _ => false,
    }
}

/// Parses the members of a GoDaddy record, as `sp_gd_members`
/// denotes.
fn parse_gd_members(
    s: &str,
    i: usize,
    acc: GodaddyConfig,
    s0: bool,
    s1: bool,
    s2: bool,
    first: bool,
) -> (r: Option<(GodaddyConfig, usize)>)
    requires
        i <= s@.len(),
    ensures
        rel_gd(r, sp_gd_members(s@, i as int, acc@, s0, s1, s2, first)),
        r matches Option::Some(p) ==> i < p.1 <= s@.len(),
    decreases s@.len() - i,
{
    let n = s.unicode_len();
    let j = ws(s, i);
    if !(j < n) {
        return Option::None;
    }
    if first && s.get_char(j) == '}' {
        return Option::Some((acc, j + 1));
    }
    if s.get_char(j) != '"' {
        return Option::None;
    }
    match parse_str_body(s, j + 1) {
        Option::None => Option::None,
        Option::Some((k, j2)) => {
            let j3 = ws(s, j2);
            if !(j3 < n && s.get_char(j3) == ':') {
                return Option::None;
            }
            let j4 = ws(s, j3 + 1);
            let step: Option<(GodaddyConfig, bool, bool, bool, usize)> = if str_eq(
                k.as_str(),
                "apiKey",
            ) {
                if s0 {
                    Option::None
                } else {
                    match parse_opt_string_value(s, j4) {
                        Option::Some((v, j5)) => Option::Some(
                            (GodaddyConfig { api_key: v, ..acc }, true, s1, s2, j5),
                        ),
                        Option::None => Option::None,
                    }
                }
            } else if str_eq(k.as_str(), "apiSecret") {
                if s1 {
                    Option::None
                } else {
                    match parse_opt_string_value(s, j4) {
                        Option::Some((v, j5)) => Option::Some(
                            (GodaddyConfig { api_secret: v, ..acc }, s0, true, s2, j5),
                        ),
                        Option::None => Option::None,
                    }
                }
            } else if str_eq(k.as_str(), "environment") {
                if s2 {
                    Option::None
                } else {
                    match parse_opt_string_value(s, j4) {
                        Option::Some((v, j5)) => Option::Some(
                            (GodaddyConfig { environment: v, ..acc }, s0, s1, true, j5),
                        ),
                        Option::None => Option::None,
                    }
                }
            } else {
                match skip_value(s, j4) {
                    Option::Some(j5) => Option::Some((acc, s0, s1, s2, j5)),
                    Option::None => Option::None,
                }
            };
            match step {
                Option::None => Option::None,
                Option::Some((acc2, t0, t1, t2, j5)) => {
                    let j6 = ws(s, j5);
                    if !(j6 < n) {
                        Option::None
                    } else if s.get_char(j6) == ',' {
                        parse_gd_members(s, j6 + 1, acc2, t0, t1, t2, false)
                    } else if s.get_char(j6) == '}' {
                        Option::Some((acc2, j6 + 1))
                    } else {
                        Option::None
                    }
                },
            }
        },
    }
}

/// Parses the members of a Cloudflare record, as `sp_cf_members`
/// denotes.
fn parse_cf_members(s: &str, i: usize, acc: CloudflareConfig, s0: bool, first: bool) -> (r: Option<
    (CloudflareConfig, usize),
>)
    requires
        i <= s@.len(),
    ensures
        rel_cf(r, sp_cf_members(s@, i as int, acc@, s0, first)),
        r matches Option::Some(p) ==> i < p.1 <= s@.len(),
    decreases s@.len() - i,
{
    let n = s.unicode_len();
    let j = ws(s, i);
    if !(j < n) {
        return Option::None;
    }
    if first && s.get_char(j) == '}' {
        return Option::Some((acc, j + 1));
    }
    if s.get_char(j) != '"' {
        return Option::None;
    }
    match parse_str_body(s, j + 1) {
        Option::None => Option::None,
        Option::Some((k, j2)) => {
            let j3 = ws(s, j2);
            if !(j3 < n && s.get_char(j3) == ':') {
                return Option::None;
            }
            let j4 = ws(s, j3 + 1);
            let step: Option<(CloudflareConfig, bool, usize)> = if str_eq(k.as_str(), "apiToken") {
                if s0 {
                    Option::None
                } else {
                    match parse_opt_string_value(s, j4) {
                        Option::Some((v, j5)) => Option::Some(
                            (CloudflareConfig { api_token: v }, true, j5),
                        ),
                        Option::None => Option::None,
                    }
                }
            } else {
                match skip_value(s, j4) {
                    Option::Some(j5) => Option::Some((acc, s0, j5)),
                    Option::None => Option::None,
                }
            };
            match step {
                Option::None => Option::None,
                Option::Some((acc2, t0, j5)) => {
                    let j6 = ws(s, j5);
                    if !(j6 < n) {
                        Option::None
                    } else if s.get_char(j6) == ',' {
                        parse_cf_members(s, j6 + 1, acc2, t0, false)
                    } else if s.get_char(j6) == '}' {
                        Option::Some((acc2, j6 + 1))
                    } else {
                        Option::None
                    }
                },
            }
        },
    }
}

/// Parses the members of a Namecheap record, as `sp_nc_members`
/// denotes.
fn parse_nc_members(
    s: &str,
    i: usize,
    acc: NamecheapConfig,
    s0: bool,
    s1: bool,
    s2: bool,
    first: bool,
) -> (r: Option<(NamecheapConfig, usize)>)
    requires
        i <= s@.len(),
    ensures
        rel_nc(r, sp_nc_members(s@, i as int, acc@, s0, s1, s2, first)),
        r matches Option::Some(p) ==> i < p.1 <= s@.len(),
    decreases s@.len() - i,
{
    let n = s.unicode_len();
    let j = ws(s, i);
    if !(j < n) {
        return Option::None;
    }
    if first && s.get_char(j) == '}' {
        return Option::Some((acc, j + 1));
    }
    if s.get_char(j) != '"' {
        return Option::None;
    }
    match parse_str_body(s, j + 1) {
        Option::None => Option::None,
        Option::Some((k, j2)) => {
            let j3 = ws(s, j2);
            if !(j3 < n && s.get_char(j3) == ':') {
                return Option::None;
            }
            let j4 = ws(s, j3 + 1);
            let step: Option<(NamecheapConfig, bool, bool, bool, usize)> = if str_eq(
                k.as_str(),
                "apiUser",
            ) {
                if s0 {
                    Option::None
                } else {
                    match parse_opt_string_value(s, j4) {
                        Option::Some((v, j5)) => Option::Some(
                            (NamecheapConfig { api_user: v, ..acc }, true, s1, s2, j5),
                        ),
                        Option::None => Option::None,
                    }
                }
            } else if str_eq(k.as_str(), "apiKey") {
                if s1 {
                    Option::None
                } else {
                    match parse_opt_string_value(s, j4) {
                        Option::Some((v, j5)) => Option::Some(
                            (NamecheapConfig { api_key: v, ..acc }, s0, true, s2, j5),
                        ),
                        Option::None => Option::None,
                    }
                }
            } else if str_eq(k.as_str(), "clientIp") {
                if s2 {
                    Option::None
                } else {
                    match parse_opt_string_value(s, j4) {
                        Option::Some((v, j5)) => Option::Some(
                            (NamecheapConfig { client_ip: v, ..acc }, s0, s1, true, j5),
                        ),
                        Option::None => Option::None,
                    }
                }
            } else {
                match skip_value(s, j4) {
                    Option::Some(j5) => Option::Some((acc, s0, s1, s2, j5)),
                    Option::None => Option::None,
                }
            };
            match step {
                Option::None => Option::None,
                Option::Some((acc2, t0, t1, t2, j5)) => {
                    let j6 = ws(s, j5);
                    if !(j6 < n) {
                        Option::None
                    } else if s.get_char(j6) == ',' {
                        parse_nc_members(s, j6 + 1, acc2, t0, t1, t2, false)
                    } else if s.get_char(j6) == '}' {
                        Option::Some((acc2, j6 + 1))
                    } else {
                        Option::None
                    }
                },
            }
        },
    }
}

/// Parses the members of a GitHub record, as `sp_gh_members` denotes.
fn parse_gh_members(s: &str, i: usize, acc: GithubConfig, s0: bool, first: bool) -> (r: Option<
    (GithubConfig, usize),
>)
    requires
        i <= s@.len(),
    ensures
        rel_gh(r, sp_gh_members(s@, i as int, acc@, s0, first)),
        r matches Option::Some(p) ==> i < p.1 <= s@.len(),
    decreases s@.len() - i,
{
    let n = s.unicode_len();
    let j = ws(s, i);
    if !(j < n) {
        return Option::None;
    }
    if first && s.get_char(j) == '}' {
        return Option::Some((acc, j + 1));
    }
    if s.get_char(j) != '"' {
        return Option::None;
    }
    match parse_str_body(s, j + 1) {
        Option::None => Option::None,
        Option::Some((k, j2)) => {
            let j3 = ws(s, j2);
            if !(j3 < n && s.get_char(j3) == ':') {
                return Option::None;
            }
            let j4 = ws(s, j3 + 1);
            let step: Option<(GithubConfig, bool, usize)> = if str_eq(k.as_str(), "token") {
                if s0 {
                    Option::None
                } else {
                    match parse_opt_string_value(s, j4) {
                        Option::Some((v, j5)) => Option::Some((GithubConfig { token: v }, true, j5)),
                        Option::None => Option::None,
                    }
                }
            } else {
                match skip_value(s, j4) {
                    Option::Some(j5) => Option::Some((acc, s0, j5)),
                    Option::None => Option::None,
                }
            };
            match step {
                Option::None => Option::None,
                Option::Some((acc2, t0, j5)) => {
                    let j6 = ws(s, j5);
                    if !(j6 < n) {
                        Option::None
                    } else if s.get_char(j6) == ',' {
                        parse_gh_members(s, j6 + 1, acc2, t0, false)
                    } else if s.get_char(j6) == '}' {
                        Option::Some((acc2, j6 + 1))
                    } else {
                        Option::None
                    }
                },
            }
        },
    }
}

/// Parses a GoDaddy record value, as `sp_opt_gd_value` denotes.
fn parse_opt_gd_value(s: &str, i: usize) -> (r: Option<(Option<GodaddyConfig>, usize)>)
    requires
        i <= s@.len(),
    ensures
        (match (r, sp_opt_gd_value(s@, i as int)) {
            (Option::Some(a), Option::Some(b)) => crate::config::opt_view(a.0) == b.0 && a.1 == b.1,
            (Option::None, Option::None) => true,
            _ => false,
        }),
        r matches Option::Some(p) ==> i < p.1 <= s@.len(),
{
    if match_lit(s, i, "null") {
        proof {
            reveal_strlit("null");
        }
        Option::Some((Option::None, i + 4))
    } else {
        let n = s.unicode_len();
        if i < n && s.get_char(i) == '{' {
            let acc = GodaddyConfig {
                api_key: Option::None,
                api_secret: Option::None,
                environment: Option::None,
            };
            match parse_gd_members(s, i + 1, acc, false, false, false, true) {
                Option::Some((g, j)) => Option::Some((Option::Some(g), j)),
                Option::None => Option::None,
            }
        } else {
            Option::None
        }
    }
}

/// Parses a Cloudflare record value, as `sp_opt_cf_value` denotes.
fn parse_opt_cf_value(s: &str, i: usize) -> (r: Option<(Option<CloudflareConfig>, usize)>)
    requires
        i <= s@.len(),
    ensures
        (match (r, sp_opt_cf_value(s@, i as int)) {
            (Option::Some(a), Option::Some(b)) => crate::config::opt_view(a.0) == b.0 && a.1 == b.1,
            (Option::None, Option::None) => true,
            _ => false,
        }),
        r matches Option::Some(p) ==> i < p.1 <= s@.len(),
{
    if match_lit(s, i, "null") {
        proof {
            reveal_strlit("null");
        }
        Option::Some((Option::None, i + 4))
    } else {
        let n = s.unicode_len();
        if i < n && s.get_char(i) == '{' {
            let acc = CloudflareConfig { api_token: Option::None };
            match parse_cf_members(s, i + 1, acc, false, true) {
                Option::Some((g, j)) => Option::Some((Option::Some(g), j)),
                Option::None => Option::None,
            }
        } else {
            Option::None
        }
    }
}

/// Parses a Namecheap record value, as `sp_opt_nc_value` denotes.
fn parse_opt_nc_value(s: &str, i: usize) -> (r: Option<(Option<NamecheapConfig>, usize)>)
    requires
        i <= s@.len(),
    ensures
        (match (r, sp_opt_nc_value(s@, i as int)) {
            (Option::Some(a), Option::Some(b)) => crate::config::opt_view(a.0) == b.0 && a.1 == b.1,
            (Option::None, Option::None) => true,
            _ => false,
        }),
        r matches Option::Some(p) ==> i < p.1 <= s@.len(),
{
    if match_lit(s, i, "null") {
        proof {
            reveal_strlit("null");
        }
        Option::Some((Option::None, i + 4))
    } else {
        let n = s.unicode_len();
        if i < n && s.get_char(i) == '{' {
            let acc = NamecheapConfig {
                api_user: Option::None,
                api_key: Option::None,
                client_ip: Option::None,
            };
            match parse_nc_members(s, i + 1, acc, false, false, false, true) {
                Option::Some((g, j)) => Option::Some((Option::Some(g), j)),
                Option::None => Option::None,
            }
        } else {
            Option::None
        }
    }
}

/// Parses a GitHub record value, as `sp_opt_gh_value` denotes.
fn parse_opt_gh_value(s: &str, i: usize) -> (r: Option<(Option<GithubConfig>, usize)>)
    requires
        i <= s@.len(),
    ensures
        (match (r, sp_opt_gh_value(s@, i as int)) {
            (Option::Some(a), Option::Some(b)) => crate::config::opt_view(a.0) == b.0 && a.1 == b.1,
            (Option::None, Option::None) => true,
            _ => false,
        }),
        r matches Option::Some(p) ==> i < p.1 <= s@.len(),
{
    if match_lit(s, i, "null") {
        proof {
            reveal_strlit("null");
        }
        Option::Some((Option::None, i + 4))
    } else {
        let n = s.unicode_len();
        if i < n && s.get_char(i) == '{' {
            let acc = GithubConfig { token: Option::None };
            match parse_gh_members(s, i + 1, acc, false, true) {
                Option::Some((g, j)) => Option::Some((Option::Some(g), j)),
                Option::None => Option::None,
            }
        } else {
            Option::None
        }
    }
}

/// Relation between an executable config result and its spec twin.
pub open spec fn rel_cfg(r: Option<(Config, usize)>, m: Option<(ConfigV, int)>) -> bool {
    match (r, m) {
        (Option::Some(a), Option::Some(b)) => a.0@ == b.0 && a.1 == b.1,
        (Option::None, Option::None) => true,
        _ => false,
    }
}

/// Parses the members of the top-level config object, as
/// `sp_cfg_members` denotes.
#[verifier::rlimit(60)]
fn parse_cfg_members(
    s: &str,
    i: usize,
    acc: Config,
    s0: bool,
    s1: bool,
    s2: bool,
    s3: bool,
    s4: bool,
    first: bool,
) -> (r: Option<(Config, usize)>)
    requires
        i <= s@.len(),
    ensures
        rel_cfg(r, sp_cfg_members(s@, i as int, acc@, s0, s1, s2, s3, s4, first)),
        r matches Option::Some(p) ==> i < p.1 <= s@.len(),
    decreases s@.len() - i,
{
    let n = s.unicode_len();
    let j = ws(s, i);
    if !(j < n) {
        return Option::None;
    }
    if first && s.get_char(j) == '}' {
        return Option::Some((acc, j + 1));
    }
    if s.get_char(j) != '"' {
        return Option::None;
    }
    match parse_str_body(s, j + 1) {
        Option::None => Option::None,
        Option::Some((k, j2)) => {
            let j3 = ws(s, j2);
            if !(j3 < n && s.get_char(j3) == ':') {
                return Option::None;
            }
            let j4 = ws(s, j3 + 1);
            let step: Option<(Config, bool, bool, bool, bool, bool, usize)> = if str_eq(
                k.as_str(),
                "dnsProvider",
            ) {
                if s0 {
                    Option::None
                } else {
                    match parse_opt_string_value(s, j4) {
                        Option::Some((v, j5)) => Option::Some(
                            (Config { dns_provider: v, ..acc }, true, s1, s2, s3, s4, j5),
                        ),
                        Option::None => Option::None,
                    }
                }
            } else if str_eq(k.as_str(), "godaddy") {
                if s1 {
                    Option::None
                } else {
                    match parse_opt_gd_value(s, j4) {
                        Option::Some((v, j5)) => Option::Some(
                            (Config { godaddy: v, ..acc }, s0, true, s2, s3, s4, j5),
                        ),
                        Option::None => Option::None,
                    }
                }
            } else if str_eq(k.as_str(), "cloudflare") {
                if s2 {
                    Option::None
                } else {
                    match parse_opt_cf_value(s, j4) {
                        Option::Some((v, j5)) => Option::Some(
                            (Config { cloudflare: v, ..acc }, s0, s1, true, s3, s4, j5),
                        ),
                        Option::None => Option::None,
                    }
                }
            } else if str_eq(k.as_str(), "namecheap") {
                if s3 {
                    Option::None
                } else {
                    match parse_opt_nc_value(s, j4) {
                        Option::Some((v, j5)) => Option::Some(
                            (Config { namecheap: v, ..acc }, s0, s1, s2, true, s4, j5),
                        ),
                        Option::None => Option::None,
                    }
                }
            } else if str_eq(k.as_str(), "github") {
                if s4 {
                    Option::None
                } else {
                    match parse_opt_gh_value(s, j4) {
                        Option::Some((v, j5)) => Option::Some(
                            (Config { github: v, ..acc }, s0, s1, s2, s3, true, j5),
                        ),
                        Option::None => Option::None,
                    }
                }
            } else {
                match skip_value(s, j4) {
                    Option::Some(j5) => Option::Some((acc, s0, s1, s2, s3, s4, j5)),
                    Option::None => Option::None,
                }
            };
            match step {
                Option::None => Option::None,
                Option::Some((acc2, t0, t1, t2, t3, t4, j5)) => {
                    let j6 = ws(s, j5);
                    if !(j6 < n) {
                        Option::None
                    } else if s.get_char(j6) == ',' {
                        parse_cfg_members(s, j6 + 1, acc2, t0, t1, t2, t3, t4, false)
                    } else if s.get_char(j6) == '}' {
                        Option::Some((acc2, j6 + 1))
                    } else {
                        Option::None
                    }
                },
            }
        },
    }
}

/// Parses the whole config document.  Succeeds with exactly the value
/// `sp_config_doc` denotes; anything that spec rejects yields a
/// parse-category error.
pub fn parse_config(s: &str) -> (r: Result<Config, ConfigError>)
    ensures
        (match sp_config_doc(s@) {
            Option::Some(c) => r matches Result::Ok(cc) && cc@ == c,
            Option::None => r matches Result::Err(e) && (e matches ConfigError::Parse(m) && m@
                == "Failed to parse config: "@ + "invalid JSON"@),
        }),
{
    let n = s.unicode_len();
    let i = ws(s, 0);
    if i < n && s.get_char(i) == '{' {
        let acc = Config {
            dns_provider: Option::None,
            godaddy: Option::None,
            cloudflare: Option::None,
            namecheap: Option::None,
            github: Option::None,
        };
        match parse_cfg_members(s, i + 1, acc, false, false, false, false, false, true) {
            Option::Some((c, j)) => {
                let k = ws(s, j);
                if k == n {
                    Result::Ok(c)
                } else {
                    Result::Err(ConfigError::parse_error("invalid JSON"))
                }
            },
            Option::None => Result::Err(ConfigError::parse_error("invalid JSON")),
        }
    } else {
        Result::Err(ConfigError::parse_error("invalid JSON"))
    }
}

} // verus!

//! The round-trip law of the codec: parsing a serialized
//! configuration yields the configuration back, field for field,
//! absent fields included.  The law is stated over the spec functions
//! that `config_to_json` and `parse_config` are proved against, so it
//! carries over to the executable pair.

use vstd::prelude::*;
use crate::config::{CloudflareV, ConfigV, GithubV, GodaddyV, NamecheapV};
use crate::parse::{
    cfg_key_index, gd_key_index, hex_val, nc_key_index, is_ws, sp_cfg_members, sp_config_doc,
    sp_gd_members, sp_cf_members, sp_nc_members, sp_gh_members, sp_match_lit,
    sp_opt_cf_value, sp_opt_gd_value, sp_opt_gh_value, sp_opt_nc_value, sp_opt_string_value,
    sp_str_body, sp_string, sp_ws,
};
use crate::ser::{
    esc, esc_char, hex_digit, ser_cloudflare, ser_config, ser_github, ser_godaddy, ser_namecheap,
    ser_opt_cloudflare, ser_opt_github, ser_opt_godaddy, ser_opt_namecheap, ser_opt_str,
    ser_str_lit,
};

verus! {

/// A character that stands for itself inside a JSON string.
pub open spec fn plain_char(c: char) -> bool {
    c != '"' && c != '\\' && (c as u32) >= 32
}

/// A run of `k` whitespace characters followed by something else is
/// skipped entirely.
proof fn lemma_ws_run(s: Seq<char>, i: int, k: int)
    requires
        0 <= i,
        0 <= k,
        i + k < s.len(),
        forall|x: int| 0 <= x < k ==> is_ws(#[trigger] s[i + x]),
        !is_ws(s[i + k]),
    ensures
        sp_ws(s, i) == i + k,
    decreases k,
{
    if k > 0 {
        assert(is_ws(s[i + 0]));
        assert forall|x: int| 0 <= x < k - 1 implies is_ws(#[trigger] s[(i + 1) + x]) by {
            assert(is_ws(s[i + (x + 1)]));
        }
        lemma_ws_run(s, i + 1, k - 1);
    }
}

/// Escaping leaves a string of plain characters unchanged.
proof fn lemma_esc_plain(t: Seq<char>)
    requires
        forall|j: int| 0 <= j < t.len() ==> plain_char(#[trigger] t[j]),
    ensures
        esc(t) == t,
    decreases t.len(),
{
    if t.len() > 0 {
        lemma_esc_plain(t.subrange(1, t.len() as int));
        assert(esc_char(t[0]) =~= seq![t[0]]);
        assert(seq![t[0]] + t.subrange(1, t.len() as int) =~= t);
    }
}

/// The hexadecimal digit of a value below 16 reads back as that
/// value.
proof fn lemma_hex_roundtrip(d: int)
    requires
        0 <= d < 16,
    ensures
        hex_val(hex_digit(d)) == d,
{
}

/// Parsing a string body over the escape of `t` followed by a closing
/// quote yields `t` and stops just after the quote.
proof fn lemma_str_body(s: Seq<char>, i: int, t: Seq<char>)
    requires
        0 <= i,
        i + esc(t).len() + 1 <= s.len(),
        s.subrange(i, i + esc(t).len()) == esc(t),
        s[i + esc(t).len()] == '"',
    ensures
        sp_str_body(s, i) == Option::Some((t, i + esc(t).len() + 1)),
    decreases t.len(),
{
    if t.len() == 0 {
        assert(s[i] == '"');
        assert(sp_str_body(s, i) == Option::Some((Seq::<char>::empty(), i + 1)));
        assert(Seq::<char>::empty() =~= t);
    } else {
        let c = t[0];
        let t1 = t.subrange(1, t.len() as int);
        let e = esc_char(c);
        let l = e.len();
        assert(esc(t) == e + esc(t1));
        let i1 = i + l;
        assert forall|x: int| 0 <= x < l implies s[i + x] == e[x] by {
            assert(s.subrange(i, i + esc(t).len())[x] == s[i + x]);
            assert((e + esc(t1))[x] == e[x]);
        }
        assert(s[i + 0] == e[0]);
        if l >= 2 {
            assert(s[i + 1] == e[1]);
        }
        if l == 6 {
            assert(s[i + 2] == e[2]);
            assert(s[i + 3] == e[3]);
            assert(s[i + 4] == e[4]);
            assert(s[i + 5] == e[5]);
        }
        assert(s.subrange(i1, i1 + esc(t1).len()) =~= esc(t1)) by {
            assert forall|x: int| 0 <= x < esc(t1).len() implies s.subrange(
                i1,
                i1 + esc(t1).len(),
            )[x] == esc(t1)[x] by {
                assert(s.subrange(i, i + esc(t).len())[l + x] == s[i + l + x]);
                assert((e + esc(t1))[l + x] == esc(t1)[x]);
            }
        }
        lemma_str_body(s, i1, t1);
        if c == '"' {
            assert(s[i] == '\\' && s[i + 1] == '"');
            assert(sp_str_body(s, i) == Option::Some((seq![c] + t1, i + 2 + esc(t1).len() + 1)));
        } else if c == '\\' {
            assert(s[i] == '\\' && s[i + 1] == '\\');
        } else if c == '\u{8}' {
            assert(s[i] == '\\' && s[i + 1] == 'b');
        } else if c == '\u{c}' {
            assert(s[i] == '\\' && s[i + 1] == 'f');
        } else if c == '\n' {
            assert(s[i] == '\\' && s[i + 1] == 'n');
        } else if c == '\r' {
            assert(s[i] == '\\' && s[i + 1] == 'r');
        } else if c == '\t' {
            assert(s[i] == '\\' && s[i + 1] == 't');
        } else if (c as u32) < 32 {
            let u = c as u32;
            assert(s[i] == '\\' && s[i + 1] == 'u' && s[i + 2] == '0' && s[i + 3] == '0');
            assert(s[i + 4] == hex_digit(u as int / 16));
            assert(s[i + 5] == hex_digit(u as int % 16));
            lemma_hex_roundtrip(u as int / 16);
            lemma_hex_roundtrip(u as int % 16);
            assert(hex_val(s[i + 2]) == 0 && hex_val(s[i + 3]) == 0);
            let v = hex_val(s[i + 2]) * 4096 + hex_val(s[i + 3]) * 256 + hex_val(s[i + 4]) * 16
                + hex_val(s[i + 5]);
            assert(v == u);
            assert(v < 0xD800);
            vstd::utf8::char_u32_cast(c, u);
            assert(((v as u32) as char) == c);
        } else {
            assert(s[i] == c);
            assert((c as u32) >= 32);
        }
        assert(seq![c] + t1 =~= t);
    }
}

/// Splits a subrange fact over a concatenation into its two halves.
proof fn lemma_take_prefix(s: Seq<char>, i: int, a: Seq<char>, b: Seq<char>)
    requires
        0 <= i,
        i + a.len() + b.len() <= s.len(),
        s.subrange(i, i + a.len() + b.len()) == a + b,
    ensures
        s.subrange(i, i + a.len()) == a,
        s.subrange(i + a.len(), i + a.len() + b.len()) == b,
{
    assert forall|x: int| 0 <= x < a.len() implies s.subrange(i, i + a.len())[x] == a[x] by {
        assert(s.subrange(i, i + a.len() + b.len())[x] == s[i + x]);
        assert(s.subrange(i, i + a.len())[x] == s[i + x]);
        assert((a + b)[x] == a[x]);
    }
    assert(s.subrange(i, i + a.len()) =~= a);
    assert forall|x: int| 0 <= x < b.len() implies s.subrange(
        i + a.len(),
        i + a.len() + b.len(),
    )[x] == b[x] by {
        assert(s.subrange(i, i + a.len() + b.len())[a.len() + x] == s[i + a.len() + x]);
        assert((a + b)[a.len() + x] == b[x]);
    }
    assert(s.subrange(i + a.len(), i + a.len() + b.len()) =~= b);
}

/// One character of a matched piece of the input is known.
proof fn lemma_char_at(s: Seq<char>, i: int, t: Seq<char>, x: int)
    requires
        0 <= i,
        i + t.len() <= s.len(),
        s.subrange(i, i + t.len()) == t,
        0 <= x < t.len(),
    ensures
        s[i + x] == t[x],
{
    assert(s.subrange(i, i + t.len())[x] == s[i + x]);
}

/// The serialized form of an optional string value starts with a
/// quote or with `null`, never with whitespace or a delimiter.
proof fn lemma_opt_str_props(v: Option<Seq<char>>)
    ensures
        ser_opt_str(v).len() >= 2,
        ser_opt_str(v)[0] == '"' || ser_opt_str(v)[0] == 'n',
{
    reveal_strlit("null");
    match v {
        Option::None => {},
        Option::Some(t) => {
            assert(ser_str_lit(t)[0] == '"');
        },
    }
}

/// Parsing an optional string value over its serialized form yields
/// the value back.
proof fn lemma_opt_str_value(s: Seq<char>, i: int, v: Option<Seq<char>>)
    requires
        0 <= i,
        i + ser_opt_str(v).len() <= s.len(),
        s.subrange(i, i + ser_opt_str(v).len()) == ser_opt_str(v),
    ensures
        sp_opt_string_value(s, i) == Option::Some((v, i + ser_opt_str(v).len())),
{
    reveal_strlit("null");
    match v {
        Option::None => {
            assert(s.subrange(i, i + 4) =~= "null"@);
            assert(sp_match_lit(s, i, "null"@));
        },
        Option::Some(t) => {
            let lit = ser_str_lit(t);
            assert(lit[0] == '"');
            lemma_char_at(s, i, lit, 0);
            assert(s[i + 0] == '"');
            assert(!sp_match_lit(s, i, "null"@)) by {
                if sp_match_lit(s, i, "null"@) {
                    assert(s.subrange(i, i + 4)[0] == s[i + 0]);
                    assert(s[i + 0] == 'n');
                }
            }
            assert(lit =~= seq!['"'] + (esc(t) + seq!['"']));
            lemma_take_prefix(s, i, seq!['"'], esc(t) + seq!['"']);
            lemma_take_prefix(s, i + 1, esc(t), seq!['"']);
            assert(s.subrange(i + 1 + esc(t).len(), i + 1 + esc(t).len() + 1)[0] == s[i + 1
                + esc(t).len()]);
            lemma_str_body(s, i + 1, t);
            assert(sp_string(s, i) == Option::Some((t, i + esc(t).len() + 2)));
        },
    }
}

/// Steps the whitespace skipper over one known member header:
/// `w` whitespace characters, the quoted plain key, a colon and one
/// space.  Yields the cursor positions the member loops go through.
proof fn lemma_member_header(s: Seq<char>, p: int, w: int, key: Seq<char>)
    requires
        0 <= p,
        0 <= w,
        p + w + key.len() + 4 < s.len(),
        forall|x: int| 0 <= x < w ==> is_ws(#[trigger] s[p + x]),
        s[p + w] == '"',
        s.subrange(p + w + 1, p + w + 1 + key.len()) == key,
        forall|x: int| 0 <= x < key.len() ==> plain_char(#[trigger] key[x]),
        s[p + w + 1 + key.len()] == '"',
        s[p + w + 2 + key.len()] == ':',
        s[p + w + 3 + key.len()] == ' ',
        !is_ws(s[p + w + 4 + key.len()]),
    ensures
        sp_ws(s, p) == p + w,
        sp_str_body(s, p + w + 1) == Option::Some((key, p + w + 2 + key.len())),
        sp_ws(s, p + w + 2 + key.len()) == p + w + 2 + key.len(),
        sp_ws(s, p + w + 3 + key.len()) == p + w + 4 + key.len(),
{
    lemma_ws_run(s, p, w);
    lemma_esc_plain(key);
    lemma_str_body(s, p + w + 1, key);
    lemma_ws_run(s, p + w + 2 + key.len(), 0);
    lemma_ws_run(s, p + w + 3 + key.len(), 1);
}

/// A piece of a matched piece of the input is known.
proof fn lemma_sub_at(s: Seq<char>, i: int, t: Seq<char>, a: int, b: int)
    requires
        0 <= i,
        i + t.len() <= s.len(),
        s.subrange(i, i + t.len()) == t,
        0 <= a <= b <= t.len(),
    ensures
        s.subrange(i + a, i + b) == t.subrange(a, b),
{
    assert forall|x: int| 0 <= x < b - a implies s.subrange(i + a, i + b)[x] == t.subrange(
        a,
        b,
    )[x] by {
        assert(s.subrange(i, i + t.len())[a + x] == s[i + (a + x)]);
        assert(s.subrange(i + a, i + b)[x] == s[(i + a) + x]);
    }
    assert(s.subrange(i + a, i + b) =~= t.subrange(a, b));
}

/// Walks the GoDaddy member loop once the cursor facts for all three
/// members are known.
proof fn lemma_gd_walk(
    s: Seq<char>,
    i: int,
    g: GodaddyV,
    o0: int,
    a1: int,
    o1: int,
    a2: int,
    o2: int,
    a3: int,
    e: int,
)
    requires
        0 <= i,
        o0 == i + 16,
        a1 >= o0 + 2,
        o1 == a1 + 19,
        a2 >= o1 + 2,
        o2 == a2 + 21,
        a3 >= o2 + 2,
        e == a3 + 4,
        e <= s.len(),
        sp_ws(s, i + 1) == i + 6,
        s[i + 6] == '"',
        sp_str_body(s, i + 7) == Option::Some(("apiKey"@, i + 14)),
        sp_ws(s, i + 14) == i + 14,
        s[i + 14] == ':',
        sp_ws(s, i + 15) == o0,
        sp_opt_string_value(s, o0) == Option::Some((g.api_key, a1)),
        sp_ws(s, a1) == a1,
        s[a1] == ',',
        sp_ws(s, a1 + 1) == a1 + 6,
        s[a1 + 6] == '"',
        sp_str_body(s, a1 + 7) == Option::Some(("apiSecret"@, a1 + 17)),
        sp_ws(s, a1 + 17) == a1 + 17,
        s[a1 + 17] == ':',
        sp_ws(s, a1 + 18) == o1,
        sp_opt_string_value(s, o1) == Option::Some((g.api_secret, a2)),
        sp_ws(s, a2) == a2,
        s[a2] == ',',
        sp_ws(s, a2 + 1) == a2 + 6,
        s[a2 + 6] == '"',
        sp_str_body(s, a2 + 7) == Option::Some(("environment"@, a2 + 19)),
        sp_ws(s, a2 + 19) == a2 + 19,
        s[a2 + 19] == ':',
        sp_ws(s, a2 + 20) == o2,
        sp_opt_string_value(s, o2) == Option::Some((g.environment, a3)),
        sp_ws(s, a3) == a3 + 3,
        s[a3 + 3] == '}',
    ensures
        sp_gd_members(s, i + 1, GodaddyV::all_absent(), false, false, false, true)
            == Option::Some((g, e)),
{
    reveal_strlit("apiKey");
    reveal_strlit("apiSecret");
    reveal_strlit("environment");
    let k0 = "apiKey"@;
    let k1 = "apiSecret"@;
    let k2 = "environment"@;
    assert(k0.len() == 6);
    assert(k1.len() == 9);
    assert(k2.len() == 11);
    assert(s[i + 6] != '}');
    let acc1 = GodaddyV { api_key: g.api_key, ..GodaddyV::all_absent() };
    let acc2 = GodaddyV { api_secret: g.api_secret, ..acc1 };
    let acc3 = GodaddyV { environment: g.environment, ..acc2 };
    assert(acc3 == g);
    assert(gd_key_index(k2) == 2);
    assert(sp_gd_members(s, a2 + 1, acc2, true, true, false, false) == Option::Some((g, e)));
    assert(gd_key_index(k1) == 1);
    assert(sp_gd_members(s, a1 + 1, acc1, true, false, false, false) == Option::Some((g, e)));
    assert(gd_key_index(k0) == 0);
    assert(sp_gd_members(s, i + 1, GodaddyV::all_absent(), false, false, false, true)
        == Option::Some((g, e)));
}

/// Parsing a GoDaddy record over its serialized form yields the
/// record back.
#[verifier::rlimit(100)]
proof fn lemma_gd_record(s: Seq<char>, i: int, g: GodaddyV)
    requires
        0 <= i,
        i + ser_godaddy(g).len() <= s.len(),
        s.subrange(i, i + ser_godaddy(g).len()) == ser_godaddy(g),
    ensures
        s[i] == '{',
        sp_gd_members(s, i + 1, GodaddyV::all_absent(), false, false, false, true)
            == Option::Some((g, i + ser_godaddy(g).len())),
{
    reveal_strlit("{\n    \"apiKey\": ");
    reveal_strlit(",\n    \"apiSecret\": ");
    reveal_strlit(",\n    \"environment\": ");
    reveal_strlit("\n  }");
    reveal_strlit("apiKey");
    reveal_strlit("apiSecret");
    reveal_strlit("environment");
    let a0t = "{\n    \"apiKey\": "@;
    let a1t = ",\n    \"apiSecret\": "@;
    let a2t = ",\n    \"environment\": "@;
    let a3t = "\n  }"@;
    let k0 = "apiKey"@;
    let k1 = "apiSecret"@;
    let k2 = "environment"@;
    let v0 = ser_opt_str(g.api_key);
    let v1 = ser_opt_str(g.api_secret);
    let v2 = ser_opt_str(g.environment);
    let l0 = v0.len();
    let l1 = v1.len();
    let l2 = v2.len();
    lemma_opt_str_props(g.api_key);
    lemma_opt_str_props(g.api_secret);
    lemma_opt_str_props(g.environment);
    lemma_take_prefix(s, i, a0t + v0 + a1t + v1 + a2t + v2, a3t);
    lemma_take_prefix(s, i, a0t + v0 + a1t + v1 + a2t, v2);
    lemma_take_prefix(s, i, a0t + v0 + a1t + v1, a2t);
    lemma_take_prefix(s, i, a0t + v0 + a1t, v1);
    lemma_take_prefix(s, i, a0t + v0, a1t);
    lemma_take_prefix(s, i, a0t, v0);
    let o0 = i + 16;
    let a1 = o0 + l0;
    let o1 = a1 + 19;
    let a2 = o1 + l1;
    let o2 = a2 + 21;
    let a3 = o2 + l2;
    let e = a3 + 4;
    assert(e == i + ser_godaddy(g).len());
    lemma_char_at(s, i, a0t, 0);
    assert(s[i + 0] == '{');
    // member 1: apiKey
    assert forall|x: int| 0 <= x < 5 implies is_ws(#[trigger] s[(i + 1) + x]) by {
        lemma_char_at(s, i, a0t, x + 1);
    }
    assert forall|x: int| 0 <= x < k0.len() implies plain_char(#[trigger] k0[x]) by {}
    lemma_sub_at(s, i, a0t, 7, 13);
    assert(a0t.subrange(7, 13) =~= k0);
    lemma_char_at(s, i, a0t, 6);
    lemma_char_at(s, i, a0t, 13);
    lemma_char_at(s, i, a0t, 14);
    lemma_char_at(s, i, a0t, 15);
    lemma_char_at(s, o0, v0, 0);
    assert(s[i + 6] == '"');
    assert(s[i + 13] == '"');
    assert(s[i + 14] == ':');
    assert(s[i + 15] == ' ');
    assert(s[o0 + 0] == v0[0]);
    assert(!is_ws(s[(i + 1) + 5 + k0.len() + 4]));
    lemma_member_header(s, i + 1, 5, k0);
    lemma_opt_str_value(s, o0, g.api_key);
    lemma_char_at(s, a1, a1t, 0);
    assert(s[a1 + 0] == ',');
    lemma_ws_run(s, a1, 0);
    // member 2: apiSecret
    let p2 = a1 + 1;
    assert forall|x: int| 0 <= x < 5 implies is_ws(#[trigger] s[p2 + x]) by {
        lemma_char_at(s, a1, a1t, x + 1);
    }
    assert forall|x: int| 0 <= x < k1.len() implies plain_char(#[trigger] k1[x]) by {}
    lemma_sub_at(s, a1, a1t, 7, 16);
    assert(a1t.subrange(7, 16) =~= k1);
    lemma_char_at(s, a1, a1t, 6);
    lemma_char_at(s, a1, a1t, 16);
    lemma_char_at(s, a1, a1t, 17);
    lemma_char_at(s, a1, a1t, 18);
    lemma_char_at(s, o1, v1, 0);
    assert(s[p2 + 5] == '"');
    assert(s[p2 + 5 + k1.len() + 1] == '"');
    assert(s[p2 + 5 + k1.len() + 2] == ':');
    assert(s[p2 + 5 + k1.len() + 3] == ' ');
    assert(s[o1 + 0] == v1[0]);
    assert(!is_ws(s[p2 + 5 + k1.len() + 4]));
    lemma_member_header(s, p2, 5, k1);
    lemma_opt_str_value(s, o1, g.api_secret);
    lemma_char_at(s, a2, a2t, 0);
    assert(s[a2 + 0] == ',');
    lemma_ws_run(s, a2, 0);
    // member 3: environment
    let p3 = a2 + 1;
    assert forall|x: int| 0 <= x < 5 implies is_ws(#[trigger] s[p3 + x]) by {
        lemma_char_at(s, a2, a2t, x + 1);
    }
    assert forall|x: int| 0 <= x < k2.len() implies plain_char(#[trigger] k2[x]) by {}
    lemma_sub_at(s, a2, a2t, 7, 18);
    assert(a2t.subrange(7, 18) =~= k2);
    lemma_char_at(s, a2, a2t, 6);
    lemma_char_at(s, a2, a2t, 18);
    lemma_char_at(s, a2, a2t, 19);
    lemma_char_at(s, a2, a2t, 20);
    lemma_char_at(s, o2, v2, 0);
    assert(s[p3 + 5] == '"');
    assert(s[p3 + 5 + k2.len() + 1] == '"');
    assert(s[p3 + 5 + k2.len() + 2] == ':');
    assert(s[p3 + 5 + k2.len() + 3] == ' ');
    assert(s[o2 + 0] == v2[0]);
    assert(!is_ws(s[p3 + 5 + k2.len() + 4]));
    lemma_member_header(s, p3, 5, k2);
    lemma_opt_str_value(s, o2, g.environment);
    // closing: newline, two spaces, brace
    assert forall|x: int| 0 <= x < 3 implies is_ws(#[trigger] s[a3 + x]) by {
        lemma_char_at(s, a3, a3t, x);
    }
    lemma_char_at(s, a3, a3t, 3);
    assert(s[a3 + 3] == '}');
    lemma_ws_run(s, a3, 3);
    lemma_gd_walk(s, i, g, o0, a1, o1, a2, o2, a3, e);
}

/// Walks the Namecheap member loop once the cursor facts for all
/// three members are known.
proof fn lemma_nc_walk(
    s: Seq<char>,
    i: int,
    g: NamecheapV,
    o0: int,
    a1: int,
    o1: int,
    a2: int,
    o2: int,
    a3: int,
    e: int,
)
    requires
        0 <= i,
        o0 == i + 17,
        a1 >= o0 + 2,
        o1 == a1 + 16,
        a2 >= o1 + 2,
        o2 == a2 + 18,
        a3 >= o2 + 2,
        e == a3 + 4,
        e <= s.len(),
        sp_ws(s, i + 1) == i + 6,
        s[i + 6] == '"',
        sp_str_body(s, i + 7) == Option::Some(("apiUser"@, i + 15)),
        sp_ws(s, i + 15) == i + 15,
        s[i + 15] == ':',
        sp_ws(s, i + 16) == o0,
        sp_opt_string_value(s, o0) == Option::Some((g.api_user, a1)),
        sp_ws(s, a1) == a1,
        s[a1] == ',',
        sp_ws(s, a1 + 1) == a1 + 6,
        s[a1 + 6] == '"',
        sp_str_body(s, a1 + 7) == Option::Some(("apiKey"@, a1 + 14)),
        sp_ws(s, a1 + 14) == a1 + 14,
        s[a1 + 14] == ':',
        sp_ws(s, a1 + 15) == o1,
        sp_opt_string_value(s, o1) == Option::Some((g.api_key, a2)),
        sp_ws(s, a2) == a2,
        s[a2] == ',',
        sp_ws(s, a2 + 1) == a2 + 6,
        s[a2 + 6] == '"',
        sp_str_body(s, a2 + 7) == Option::Some(("clientIp"@, a2 + 16)),
        sp_ws(s, a2 + 16) == a2 + 16,
        s[a2 + 16] == ':',
        sp_ws(s, a2 + 17) == o2,
        sp_opt_string_value(s, o2) == Option::Some((g.client_ip, a3)),
        sp_ws(s, a3) == a3 + 3,
        s[a3 + 3] == '}',
    ensures
        sp_nc_members(s, i + 1, NamecheapV::all_absent(), false, false, false, true)
            == Option::Some((g, e)),
{
    reveal_strlit("apiUser");
    reveal_strlit("apiKey");
    reveal_strlit("clientIp");
    let k0 = "apiUser"@;
    let k1 = "apiKey"@;
    let k2 = "clientIp"@;
    assert(k0.len() == 7);
    assert(k1.len() == 6);
    assert(k2.len() == 8);
    assert(s[i + 6] != '}');
    let acc1 = NamecheapV { api_user: g.api_user, ..NamecheapV::all_absent() };
    let acc2 = NamecheapV { api_key: g.api_key, ..acc1 };
    let acc3 = NamecheapV { client_ip: g.client_ip, ..acc2 };
    assert(acc3 == g);
    assert(nc_key_index(k2) == 2);
    assert(sp_nc_members(s, a2 + 1, acc2, true, true, false, false) == Option::Some((g, e)));
    assert(nc_key_index(k1) == 1);
    assert(sp_nc_members(s, a1 + 1, acc1, true, false, false, false) == Option::Some((g, e)));
    assert(nc_key_index(k0) == 0);
    assert(sp_nc_members(s, i + 1, NamecheapV::all_absent(), false, false, false, true)
        == Option::Some((g, e)));
}

/// Parsing a Namecheap record over its serialized form yields the
/// record back.
#[verifier::rlimit(100)]
proof fn lemma_nc_record(s: Seq<char>, i: int, g: NamecheapV)
    requires
        0 <= i,
        i + ser_namecheap(g).len() <= s.len(),
        s.subrange(i, i + ser_namecheap(g).len()) == ser_namecheap(g),
    ensures
        s[i] == '{',
        sp_nc_members(s, i + 1, NamecheapV::all_absent(), false, false, false, true)
            == Option::Some((g, i + ser_namecheap(g).len())),
{
    reveal_strlit("{\n    \"apiUser\": ");
    reveal_strlit(",\n    \"apiKey\": ");
    reveal_strlit(",\n    \"clientIp\": ");
    reveal_strlit("\n  }");
    reveal_strlit("apiUser");
    reveal_strlit("apiKey");
    reveal_strlit("clientIp");
    let a0t = "{\n    \"apiUser\": "@;
    let a1t = ",\n    \"apiKey\": "@;
    let a2t = ",\n    \"clientIp\": "@;
    let a3t = "\n  }"@;
    let k0 = "apiUser"@;
    let k1 = "apiKey"@;
    let k2 = "clientIp"@;
    let v0 = ser_opt_str(g.api_user);
    let v1 = ser_opt_str(g.api_key);
    let v2 = ser_opt_str(g.client_ip);
    let l0 = v0.len();
    let l1 = v1.len();
    let l2 = v2.len();
    lemma_opt_str_props(g.api_user);
    lemma_opt_str_props(g.api_key);
    lemma_opt_str_props(g.client_ip);
    lemma_take_prefix(s, i, a0t + v0 + a1t + v1 + a2t + v2, a3t);
    lemma_take_prefix(s, i, a0t + v0 + a1t + v1 + a2t, v2);
    lemma_take_prefix(s, i, a0t + v0 + a1t + v1, a2t);
    lemma_take_prefix(s, i, a0t + v0 + a1t, v1);
    lemma_take_prefix(s, i, a0t + v0, a1t);
    lemma_take_prefix(s, i, a0t, v0);
    let o0 = i + 17;
    let a1 = o0 + l0;
    let o1 = a1 + 16;
    let a2 = o1 + l1;
    let o2 = a2 + 18;
    let a3 = o2 + l2;
    let e = a3 + 4;
    assert(e == i + ser_namecheap(g).len());
    lemma_char_at(s, i, a0t, 0);
    assert(s[i + 0] == '{');
    // member 1: apiUser
    assert forall|x: int| 0 <= x < 5 implies is_ws(#[trigger] s[(i + 1) + x]) by {
        lemma_char_at(s, i, a0t, x + 1);
    }
    assert forall|x: int| 0 <= x < k0.len() implies plain_char(#[trigger] k0[x]) by {}
    lemma_sub_at(s, i, a0t, 7, 14);
    assert(a0t.subrange(7, 14) =~= k0);
    lemma_char_at(s, i, a0t, 6);
    lemma_char_at(s, i, a0t, 14);
    lemma_char_at(s, i, a0t, 15);
    lemma_char_at(s, i, a0t, 16);
    lemma_char_at(s, o0, v0, 0);
    assert(s[i + 6] == '"');
    assert(s[i + 14] == '"');
    assert(s[i + 15] == ':');
    assert(s[i + 16] == ' ');
    assert(s[o0 + 0] == v0[0]);
    assert(!is_ws(s[(i + 1) + 5 + k0.len() + 4]));
    lemma_member_header(s, i + 1, 5, k0);
    lemma_opt_str_value(s, o0, g.api_user);
    lemma_char_at(s, a1, a1t, 0);
    assert(s[a1 + 0] == ',');
    lemma_ws_run(s, a1, 0);
    // member 2: apiKey
    let p2 = a1 + 1;
    assert forall|x: int| 0 <= x < 5 implies is_ws(#[trigger] s[p2 + x]) by {
        lemma_char_at(s, a1, a1t, x + 1);
    }
    assert forall|x: int| 0 <= x < k1.len() implies plain_char(#[trigger] k1[x]) by {}
    lemma_sub_at(s, a1, a1t, 7, 13);
    assert(a1t.subrange(7, 13) =~= k1);
    lemma_char_at(s, a1, a1t, 6);
    lemma_char_at(s, a1, a1t, 13);
    lemma_char_at(s, a1, a1t, 14);
    lemma_char_at(s, a1, a1t, 15);
    lemma_char_at(s, o1, v1, 0);
    assert(s[p2 + 5] == '"');
    assert(s[p2 + 5 + k1.len() + 1] == '"');
    assert(s[p2 + 5 + k1.len() + 2] == ':');
    assert(s[p2 + 5 + k1.len() + 3] == ' ');
    assert(s[o1 + 0] == v1[0]);
    assert(!is_ws(s[p2 + 5 + k1.len() + 4]));
    lemma_member_header(s, p2, 5, k1);
    lemma_opt_str_value(s, o1, g.api_key);
    lemma_char_at(s, a2, a2t, 0);
    assert(s[a2 + 0] == ',');
    lemma_ws_run(s, a2, 0);
    // member 3: clientIp
    let p3 = a2 + 1;
    assert forall|x: int| 0 <= x < 5 implies is_ws(#[trigger] s[p3 + x]) by {
        lemma_char_at(s, a2, a2t, x + 1);
    }
    assert forall|x: int| 0 <= x < k2.len() implies plain_char(#[trigger] k2[x]) by {}
    lemma_sub_at(s, a2, a2t, 7, 15);
    assert(a2t.subrange(7, 15) =~= k2);
    lemma_char_at(s, a2, a2t, 6);
    lemma_char_at(s, a2, a2t, 15);
    lemma_char_at(s, a2, a2t, 16);
    lemma_char_at(s, a2, a2t, 17);
    lemma_char_at(s, o2, v2, 0);
    assert(s[p3 + 5] == '"');
    assert(s[p3 + 5 + k2.len() + 1] == '"');
    assert(s[p3 + 5 + k2.len() + 2] == ':');
    assert(s[p3 + 5 + k2.len() + 3] == ' ');
    assert(s[o2 + 0] == v2[0]);
    assert(!is_ws(s[p3 + 5 + k2.len() + 4]));
    lemma_member_header(s, p3, 5, k2);
    lemma_opt_str_value(s, o2, g.client_ip);
    // closing: newline, two spaces, brace
    assert forall|x: int| 0 <= x < 3 implies is_ws(#[trigger] s[a3 + x]) by {
        lemma_char_at(s, a3, a3t, x);
    }
    lemma_char_at(s, a3, a3t, 3);
    assert(s[a3 + 3] == '}');
    lemma_ws_run(s, a3, 3);
    lemma_nc_walk(s, i, g, o0, a1, o1, a2, o2, a3, e);
}

/// Parsing a Cloudflare record over its serialized form yields the
/// record back.
#[verifier::rlimit(100)]
proof fn lemma_cf_record(s: Seq<char>, i: int, g: CloudflareV)
    requires
        0 <= i,
        i + ser_cloudflare(g).len() <= s.len(),
        s.subrange(i, i + ser_cloudflare(g).len()) == ser_cloudflare(g),
    ensures
        s[i] == '{',
        sp_cf_members(s, i + 1, CloudflareV::all_absent(), false, true) == Option::Some(
            (g, i + ser_cloudflare(g).len()),
        ),
{
    reveal_strlit("{\n    \"apiToken\": ");
    reveal_strlit("\n  }");
    reveal_strlit("apiToken");
    let a0t = "{\n    \"apiToken\": "@;
    let a3t = "\n  }"@;
    let k0 = "apiToken"@;
    let v0 = ser_opt_str(g.api_token);
    let l0 = v0.len();
    lemma_opt_str_props(g.api_token);
    lemma_take_prefix(s, i, a0t + v0, a3t);
    lemma_take_prefix(s, i, a0t, v0);
    let o0 = i + 18;
    let a3 = o0 + l0;
    let e = a3 + 4;
    assert(e == i + ser_cloudflare(g).len());
    lemma_char_at(s, i, a0t, 0);
    assert(s[i + 0] == '{');
    assert forall|x: int| 0 <= x < 5 implies is_ws(#[trigger] s[(i + 1) + x]) by {
        lemma_char_at(s, i, a0t, x + 1);
    }
    assert forall|x: int| 0 <= x < k0.len() implies plain_char(#[trigger] k0[x]) by {}
    lemma_sub_at(s, i, a0t, 7, 15);
    assert(a0t.subrange(7, 15) =~= k0);
    lemma_char_at(s, i, a0t, 6);
    lemma_char_at(s, i, a0t, 15);
    lemma_char_at(s, i, a0t, 16);
    lemma_char_at(s, i, a0t, 17);
    lemma_char_at(s, o0, v0, 0);
    assert(s[i + 6] == '"');
    assert(s[i + 15] == '"');
    assert(s[i + 16] == ':');
    assert(s[i + 17] == ' ');
    assert(s[o0 + 0] == v0[0]);
    assert(!is_ws(s[(i + 1) + 5 + k0.len() + 4]));
    lemma_member_header(s, i + 1, 5, k0);
    lemma_opt_str_value(s, o0, g.api_token);
    assert forall|x: int| 0 <= x < 3 implies is_ws(#[trigger] s[a3 + x]) by {
        lemma_char_at(s, a3, a3t, x);
    }
    lemma_char_at(s, a3, a3t, 3);
    assert(s[a3 + 3] == '}');
    lemma_ws_run(s, a3, 3);
    assert(k0.len() == 8);
    assert(s[i + 6] != '}');
    let acc1 = CloudflareV { api_token: g.api_token };
    assert(acc1 == g);
    assert(sp_cf_members(s, i + 1, CloudflareV::all_absent(), false, true) == Option::Some(
        (g, e),
    ));
}

/// Parsing a GitHub record over its serialized form yields the
/// record back.
#[verifier::rlimit(100)]
proof fn lemma_gh_record(s: Seq<char>, i: int, g: GithubV)
    requires
        0 <= i,
        i + ser_github(g).len() <= s.len(),
        s.subrange(i, i + ser_github(g).len()) == ser_github(g),
    ensures
        s[i] == '{',
        sp_gh_members(s, i + 1, GithubV::all_absent(), false, true) == Option::Some(
            (g, i + ser_github(g).len()),
        ),
{
    reveal_strlit("{\n    \"token\": ");
    reveal_strlit("\n  }");
    reveal_strlit("token");
    let a0t = "{\n    \"token\": "@;
    let a3t = "\n  }"@;
    let k0 = "token"@;
    let v0 = ser_opt_str(g.token);
    let l0 = v0.len();
    lemma_opt_str_props(g.token);
    lemma_take_prefix(s, i, a0t + v0, a3t);
    lemma_take_prefix(s, i, a0t, v0);
    let o0 = i + 15;
    let a3 = o0 + l0;
    let e = a3 + 4;
    assert(e == i + ser_github(g).len());
    lemma_char_at(s, i, a0t, 0);
    assert(s[i + 0] == '{');
    assert forall|x: int| 0 <= x < 5 implies is_ws(#[trigger] s[(i + 1) + x]) by {
        lemma_char_at(s, i, a0t, x + 1);
    }
    assert forall|x: int| 0 <= x < k0.len() implies plain_char(#[trigger] k0[x]) by {}
    lemma_sub_at(s, i, a0t, 7, 12);
    assert(a0t.subrange(7, 12) =~= k0);
    lemma_char_at(s, i, a0t, 6);
    lemma_char_at(s, i, a0t, 12);
    lemma_char_at(s, i, a0t, 13);
    lemma_char_at(s, i, a0t, 14);
    lemma_char_at(s, o0, v0, 0);
    assert(s[i + 6] == '"');
    assert(s[i + 12] == '"');
    assert(s[i + 13] == ':');
    assert(s[i + 14] == ' ');
    assert(s[o0 + 0] == v0[0]);
    assert(!is_ws(s[(i + 1) + 5 + k0.len() + 4]));
    lemma_member_header(s, i + 1, 5, k0);
    lemma_opt_str_value(s, o0, g.token);
    assert forall|x: int| 0 <= x < 3 implies is_ws(#[trigger] s[a3 + x]) by {
        lemma_char_at(s, a3, a3t, x);
    }
    lemma_char_at(s, a3, a3t, 3);
    assert(s[a3 + 3] == '}');
    lemma_ws_run(s, a3, 3);
    assert(k0.len() == 5);
    assert(s[i + 6] != '}');
    let acc1 = GithubV { token: g.token };
    assert(acc1 == g);
    assert(sp_gh_members(s, i + 1, GithubV::all_absent(), false, true) == Option::Some((g, e)));
}

/// Parsing a GoDaddy record value over its serialized form yields
/// the value back.
proof fn lemma_opt_gd_value(s: Seq<char>, i: int, v: Option<GodaddyV>)
    requires
        0 <= i,
        i + ser_opt_godaddy(v).len() <= s.len(),
        s.subrange(i, i + ser_opt_godaddy(v).len()) == ser_opt_godaddy(v),
    ensures
        sp_opt_gd_value(s, i) == Option::Some((v, i + ser_opt_godaddy(v).len())),
{
    reveal_strlit("null");
    match v {
        Option::None => {
            assert(s.subrange(i, i + 4) =~= "null"@);
            assert(sp_match_lit(s, i, "null"@));
        },
        Option::Some(g) => {
            lemma_gd_record(s, i, g);
            assert(!sp_match_lit(s, i, "null"@)) by {
                if sp_match_lit(s, i, "null"@) {
                    assert(s.subrange(i, i + 4)[0] == s[i + 0]);
                }
            }
        },
    }
}

/// Parsing a Namecheap record value over its serialized form yields
/// the value back.
proof fn lemma_opt_nc_value(s: Seq<char>, i: int, v: Option<NamecheapV>)
    requires
        0 <= i,
        i + ser_opt_namecheap(v).len() <= s.len(),
        s.subrange(i, i + ser_opt_namecheap(v).len()) == ser_opt_namecheap(v),
    ensures
        sp_opt_nc_value(s, i) == Option::Some((v, i + ser_opt_namecheap(v).len())),
{
    reveal_strlit("null");
    match v {
        Option::None => {
            assert(s.subrange(i, i + 4) =~= "null"@);
            assert(sp_match_lit(s, i, "null"@));
        },
        Option::Some(g) => {
            lemma_nc_record(s, i, g);
            assert(!sp_match_lit(s, i, "null"@)) by {
                if sp_match_lit(s, i, "null"@) {
                    assert(s.subrange(i, i + 4)[0] == s[i + 0]);
                }
            }
        },
    }
}

/// Parsing a Cloudflare record value over its serialized form yields
/// the value back.
proof fn lemma_opt_cf_value(s: Seq<char>, i: int, v: Option<CloudflareV>)
    requires
        0 <= i,
        i + ser_opt_cloudflare(v).len() <= s.len(),
        s.subrange(i, i + ser_opt_cloudflare(v).len()) == ser_opt_cloudflare(v),
    ensures
        sp_opt_cf_value(s, i) == Option::Some((v, i + ser_opt_cloudflare(v).len())),
{
    reveal_strlit("null");
    match v {
        Option::None => {
            assert(s.subrange(i, i + 4) =~= "null"@);
            assert(sp_match_lit(s, i, "null"@));
        },
        Option::Some(g) => {
            lemma_cf_record(s, i, g);
            assert(!sp_match_lit(s, i, "null"@)) by {
                if sp_match_lit(s, i, "null"@) {
                    assert(s.subrange(i, i + 4)[0] == s[i + 0]);
                }
            }
        },
    }
}

/// Parsing a GitHub record value over its serialized form yields the
/// value back.
proof fn lemma_opt_gh_value(s: Seq<char>, i: int, v: Option<GithubV>)
    requires
        0 <= i,
        i + ser_opt_github(v).len() <= s.len(),
        s.subrange(i, i + ser_opt_github(v).len()) == ser_opt_github(v),
    ensures
        sp_opt_gh_value(s, i) == Option::Some((v, i + ser_opt_github(v).len())),
{
    reveal_strlit("null");
    match v {
        Option::None => {
            assert(s.subrange(i, i + 4) =~= "null"@);
            assert(sp_match_lit(s, i, "null"@));
        },
        Option::Some(g) => {
            lemma_gh_record(s, i, g);
            assert(!sp_match_lit(s, i, "null"@)) by {
                if sp_match_lit(s, i, "null"@) {
                    assert(s.subrange(i, i + 4)[0] == s[i + 0]);
                }
            }
        },
    }
}

/// The serialized form of a GoDaddy record value starts with a brace
/// or with `null`.
proof fn lemma_opt_gd_props(v: Option<GodaddyV>)
    ensures
        ser_opt_godaddy(v).len() >= 4,
        ser_opt_godaddy(v)[0] == '{' || ser_opt_godaddy(v)[0] == 'n',
{
    reveal_strlit("null");
    reveal_strlit("{\n    \"apiKey\": ");
    match v {
        Option::None => {},
        Option::Some(g) => {
            assert(ser_godaddy(g)[0] == "{\n    \"apiKey\": "@[0]);
        },
    }
}

/// The serialized form of a Cloudflare record value starts with a
/// brace or with `null`.
proof fn lemma_opt_cf_props(v: Option<CloudflareV>)
    ensures
        ser_opt_cloudflare(v).len() >= 4,
        ser_opt_cloudflare(v)[0] == '{' || ser_opt_cloudflare(v)[0] == 'n',
{
    reveal_strlit("null");
    reveal_strlit("{\n    \"apiToken\": ");
    match v {
        Option::None => {},
        Option::Some(g) => {
            assert(ser_cloudflare(g)[0] == "{\n    \"apiToken\": "@[0]);
            lemma_opt_str_props(g.api_token);
        },
    }
}

/// The serialized form of a Namecheap record value starts with a
/// brace or with `null`.
proof fn lemma_opt_nc_props(v: Option<NamecheapV>)
    ensures
        ser_opt_namecheap(v).len() >= 4,
        ser_opt_namecheap(v)[0] == '{' || ser_opt_namecheap(v)[0] == 'n',
{
    reveal_strlit("null");
    reveal_strlit("{\n    \"apiUser\": ");
    match v {
        Option::None => {},
        Option::Some(g) => {
            assert(ser_namecheap(g)[0] == "{\n    \"apiUser\": "@[0]);
        },
    }
}

/// The serialized form of a GitHub record value starts with a brace
/// or with `null`.
proof fn lemma_opt_gh_props(v: Option<GithubV>)
    ensures
        ser_opt_github(v).len() >= 4,
        ser_opt_github(v)[0] == '{' || ser_opt_github(v)[0] == 'n',
{
    reveal_strlit("null");
    reveal_strlit("{\n    \"token\": ");
    match v {
        Option::None => {},
        Option::Some(g) => {
            assert(ser_github(g)[0] == "{\n    \"token\": "@[0]);
            lemma_opt_str_props(g.token);
        },
    }
}

/// Walks the last two top-level members, from an accumulator that
/// already holds the first three fields.
#[verifier::rlimit(100)]
proof fn lemma_cfg_walk_tail(
    s: Seq<char>,
    c: ConfigV,
    acc3: ConfigV,
    an: int,
    on: int,
    ah: int,
    oh: int,
    ae: int,
    e: int,
)
    requires
        0 <= an,
        on == an + 17,
        ah >= on + 4,
        oh == ah + 14,
        ae >= oh + 4,
        e == ae + 2,
        e <= s.len(),
        (ConfigV { namecheap: c.namecheap, github: c.github, ..acc3 }) == c,
        sp_ws(s, an + 1) == an + 4,
        s[an + 4] == '"',
        sp_str_body(s, an + 5) == Option::Some(("namecheap"@, an + 15)),
        sp_ws(s, an + 15) == an + 15,
        s[an + 15] == ':',
        sp_ws(s, an + 16) == on,
        sp_opt_nc_value(s, on) == Option::Some((c.namecheap, ah)),
        sp_ws(s, ah) == ah,
        s[ah] == ',',
        sp_ws(s, ah + 1) == ah + 4,
        s[ah + 4] == '"',
        sp_str_body(s, ah + 5) == Option::Some(("github"@, ah + 12)),
        sp_ws(s, ah + 12) == ah + 12,
        s[ah + 12] == ':',
        sp_ws(s, ah + 13) == oh,
        sp_opt_gh_value(s, oh) == Option::Some((c.github, ae)),
        sp_ws(s, ae) == ae + 1,
        s[ae + 1] == '}',
    ensures
        sp_cfg_members(s, an + 1, acc3, true, true, true, false, false, false) == Option::Some((c, e)),
{
    reveal_strlit("dnsProvider");
    reveal_strlit("godaddy");
    reveal_strlit("cloudflare");
    reveal_strlit("namecheap");
    reveal_strlit("github");
    let k3 = "namecheap"@;
    let k4 = "github"@;
    assert("dnsProvider"@.len() == 11);
    assert("godaddy"@.len() == 7);
    assert("cloudflare"@.len() == 10);
    assert(k3.len() == 9);
    assert(k4.len() == 6);
    assert(s[an + 4] != '}');
    let acc4 = ConfigV { namecheap: c.namecheap, ..acc3 };
    let acc5 = ConfigV { github: c.github, ..acc4 };
    assert(acc5 == c);
    assert(cfg_key_index(k4) == 4);
    assert(sp_cfg_members(s, ah + 1, acc4, true, true, true, true, false, false)
        == Option::Some((c, e)));
    assert(cfg_key_index(k3) == 3);
    assert(sp_cfg_members(s, an + 1, acc3, true, true, true, false, false, false)
        == Option::Some((c, e)));
}

/// Walks the top-level member loop once the cursor facts for all
/// five members are known.
#[verifier::rlimit(100)]
proof fn lemma_cfg_walk(
    s: Seq<char>,
    i: int,
    c: ConfigV,
    ov: int,
    ag: int,
    og: int,
    af: int,
    of: int,
    an: int,
    on: int,
    ah: int,
    oh: int,
    ae: int,
    e: int,
)
    requires
        0 <= i,
        ov == i + 19,
        ag >= ov + 2,
        og == ag + 15,
        af >= og + 4,
        of == af + 18,
        an >= of + 4,
        on == an + 17,
        ah >= on + 4,
        oh == ah + 14,
        ae >= oh + 4,
        e == ae + 2,
        e <= s.len(),
        sp_ws(s, i + 1) == i + 4,
        s[i + 4] == '"',
        sp_str_body(s, i + 5) == Option::Some(("dnsProvider"@, i + 17)),
        sp_ws(s, i + 17) == i + 17,
        s[i + 17] == ':',
        sp_ws(s, i + 18) == ov,
        sp_opt_string_value(s, ov) == Option::Some((c.dns_provider, ag)),
        sp_ws(s, ag) == ag,
        s[ag] == ',',
        sp_ws(s, ag + 1) == ag + 4,
        s[ag + 4] == '"',
        sp_str_body(s, ag + 5) == Option::Some(("godaddy"@, ag + 13)),
        sp_ws(s, ag + 13) == ag + 13,
        s[ag + 13] == ':',
        sp_ws(s, ag + 14) == og,
        sp_opt_gd_value(s, og) == Option::Some((c.godaddy, af)),
        sp_ws(s, af) == af,
        s[af] == ',',
        sp_ws(s, af + 1) == af + 4,
        s[af + 4] == '"',
        sp_str_body(s, af + 5) == Option::Some(("cloudflare"@, af + 16)),
        sp_ws(s, af + 16) == af + 16,
        s[af + 16] == ':',
        sp_ws(s, af + 17) == of,
        sp_opt_cf_value(s, of) == Option::Some((c.cloudflare, an)),
        sp_ws(s, an) == an,
        s[an] == ',',
        sp_ws(s, an + 1) == an + 4,
        s[an + 4] == '"',
        sp_str_body(s, an + 5) == Option::Some(("namecheap"@, an + 15)),
        sp_ws(s, an + 15) == an + 15,
        s[an + 15] == ':',
        sp_ws(s, an + 16) == on,
        sp_opt_nc_value(s, on) == Option::Some((c.namecheap, ah)),
        sp_ws(s, ah) == ah,
        s[ah] == ',',
        sp_ws(s, ah + 1) == ah + 4,
        s[ah + 4] == '"',
        sp_str_body(s, ah + 5) == Option::Some(("github"@, ah + 12)),
        sp_ws(s, ah + 12) == ah + 12,
        s[ah + 12] == ':',
        sp_ws(s, ah + 13) == oh,
        sp_opt_gh_value(s, oh) == Option::Some((c.github, ae)),
        sp_ws(s, ae) == ae + 1,
        s[ae + 1] == '}',
    ensures
        sp_cfg_members(s, i + 1, ConfigV::all_absent(), false, false, false, false, false, true)
            == Option::Some((c, e)),
{
    reveal_strlit("dnsProvider");
    reveal_strlit("godaddy");
    reveal_strlit("cloudflare");
    reveal_strlit("namecheap");
    reveal_strlit("github");
    let k0 = "dnsProvider"@;
    let k1 = "godaddy"@;
    let k2 = "cloudflare"@;
    let k3 = "namecheap"@;
    let k4 = "github"@;
    assert(k0.len() == 11);
    assert(k1.len() == 7);
    assert(k2.len() == 10);
    assert(k3.len() == 9);
    assert(k4.len() == 6);
    assert(s[i + 4] != '}');
    let acc1 = ConfigV { dns_provider: c.dns_provider, ..ConfigV::all_absent() };
    let acc2 = ConfigV { godaddy: c.godaddy, ..acc1 };
    let acc3 = ConfigV { cloudflare: c.cloudflare, ..acc2 };
    assert(ConfigV { namecheap: c.namecheap, github: c.github, ..acc3 } == c);
    lemma_cfg_walk_tail(s, c, acc3, an, on, ah, oh, ae, e);
    assert(cfg_key_index(k2) == 2);
    assert(sp_cfg_members(s, af + 1, acc2, true, true, false, false, false, false)
        == Option::Some((c, e)));
    assert(cfg_key_index(k1) == 1);
    assert(sp_cfg_members(s, ag + 1, acc1, true, false, false, false, false, false)
        == Option::Some((c, e)));
    assert(cfg_key_index(k0) == 0);
    assert(sp_cfg_members(s, i + 1, ConfigV::all_absent(), false, false, false, false, false, true)
        == Option::Some((c, e)));
}

/// Locates every literal and value piece of a serialized
/// configuration inside the input.
#[verifier::rlimit(100)]
proof fn lemma_cfg_pieces(s: Seq<char>, i: int, c: ConfigV)
    requires
        0 <= i,
        i + ser_config(c).len() <= s.len(),
        s.subrange(i, i + ser_config(c).len()) == ser_config(c),
    ensures
        s.subrange(i, i + 19) == "{\n  \"dnsProvider\": "@,
        s.subrange(i + 19, i + 19 + ser_opt_str(c.dns_provider).len()) == ser_opt_str(
            c.dns_provider,
        ),
        s.subrange(
            i + 19 + ser_opt_str(c.dns_provider).len(),
            i + 34 + ser_opt_str(c.dns_provider).len(),
        ) == ",\n  \"godaddy\": "@,
        s.subrange(
            i + 34 + ser_opt_str(c.dns_provider).len(),
            i + 34 + ser_opt_str(c.dns_provider).len() + ser_opt_godaddy(c.godaddy).len(),
        ) == ser_opt_godaddy(c.godaddy),
        s.subrange(
            i + 34 + ser_opt_str(c.dns_provider).len() + ser_opt_godaddy(c.godaddy).len(),
            i + 52 + ser_opt_str(c.dns_provider).len() + ser_opt_godaddy(c.godaddy).len(),
        ) == ",\n  \"cloudflare\": "@,
        s.subrange(
            i + 52 + ser_opt_str(c.dns_provider).len() + ser_opt_godaddy(c.godaddy).len(),
            i + 52 + ser_opt_str(c.dns_provider).len() + ser_opt_godaddy(c.godaddy).len()
                + ser_opt_cloudflare(c.cloudflare).len(),
        ) == ser_opt_cloudflare(c.cloudflare),
        s.subrange(
            i + 52 + ser_opt_str(c.dns_provider).len() + ser_opt_godaddy(c.godaddy).len()
                + ser_opt_cloudflare(c.cloudflare).len(),
            i + 69 + ser_opt_str(c.dns_provider).len() + ser_opt_godaddy(c.godaddy).len()
                + ser_opt_cloudflare(c.cloudflare).len(),
        ) == ",\n  \"namecheap\": "@,
        s.subrange(
            i + 69 + ser_opt_str(c.dns_provider).len() + ser_opt_godaddy(c.godaddy).len()
                + ser_opt_cloudflare(c.cloudflare).len(),
            i + 69 + ser_opt_str(c.dns_provider).len() + ser_opt_godaddy(c.godaddy).len()
                + ser_opt_cloudflare(c.cloudflare).len() + ser_opt_namecheap(c.namecheap).len(),
        ) == ser_opt_namecheap(c.namecheap),
        s.subrange(
            i + 69 + ser_opt_str(c.dns_provider).len() + ser_opt_godaddy(c.godaddy).len()
                + ser_opt_cloudflare(c.cloudflare).len() + ser_opt_namecheap(c.namecheap).len(),
            i + 83 + ser_opt_str(c.dns_provider).len() + ser_opt_godaddy(c.godaddy).len()
                + ser_opt_cloudflare(c.cloudflare).len() + ser_opt_namecheap(c.namecheap).len(),
        ) == ",\n  \"github\": "@,
        s.subrange(
            i + 83 + ser_opt_str(c.dns_provider).len() + ser_opt_godaddy(c.godaddy).len()
                + ser_opt_cloudflare(c.cloudflare).len() + ser_opt_namecheap(c.namecheap).len(),
            i + 83 + ser_opt_str(c.dns_provider).len() + ser_opt_godaddy(c.godaddy).len()
                + ser_opt_cloudflare(c.cloudflare).len() + ser_opt_namecheap(c.namecheap).len()
                + ser_opt_github(c.github).len(),
        ) == ser_opt_github(c.github),
        s.subrange(i + ser_config(c).len() - 2, i + ser_config(c).len()) == "\n}"@,
{
    reveal_strlit("{\n  \"dnsProvider\": ");
    reveal_strlit(",\n  \"godaddy\": ");
    reveal_strlit(",\n  \"cloudflare\": ");
    reveal_strlit(",\n  \"namecheap\": ");
    reveal_strlit(",\n  \"github\": ");
    reveal_strlit("\n}");
    let c0t = "{\n  \"dnsProvider\": "@;
    let c1t = ",\n  \"godaddy\": "@;
    let c2t = ",\n  \"cloudflare\": "@;
    let c3t = ",\n  \"namecheap\": "@;
    let c4t = ",\n  \"github\": "@;
    let c5t = "\n}"@;
    let vv = ser_opt_str(c.dns_provider);
    let vg = ser_opt_godaddy(c.godaddy);
    let vf = ser_opt_cloudflare(c.cloudflare);
    let vn = ser_opt_namecheap(c.namecheap);
    let vh = ser_opt_github(c.github);
    lemma_take_prefix(s, i, c0t + vv + c1t + vg + c2t + vf + c3t + vn + c4t + vh, c5t);
    lemma_take_prefix(s, i, c0t + vv + c1t + vg + c2t + vf + c3t + vn + c4t, vh);
    lemma_take_prefix(s, i, c0t + vv + c1t + vg + c2t + vf + c3t + vn, c4t);
    lemma_take_prefix(s, i, c0t + vv + c1t + vg + c2t + vf + c3t, vn);
    lemma_take_prefix(s, i, c0t + vv + c1t + vg + c2t + vf, c3t);
    lemma_take_prefix(s, i, c0t + vv + c1t + vg + c2t, vf);
    lemma_take_prefix(s, i, c0t + vv + c1t + vg, c2t);
    lemma_take_prefix(s, i, c0t + vv + c1t, vg);
    lemma_take_prefix(s, i, c0t + vv, c1t);
    lemma_take_prefix(s, i, c0t, vv);
}

/// Cursor facts for the first three top-level members.
#[verifier::rlimit(100)]
proof fn lemma_cfg_a(s: Seq<char>, i: int, c: ConfigV, ov: int, ag: int, og: int, af: int, of: int, an: int)
    requires
        0 <= i,
        ov == i + 19,
        ag == ov + ser_opt_str(c.dns_provider).len(),
        og == ag + 15,
        af == og + ser_opt_godaddy(c.godaddy).len(),
        of == af + 18,
        an == of + ser_opt_cloudflare(c.cloudflare).len(),
        an + 17 <= s.len(),
        s.subrange(i, i + 19) == "{\n  \"dnsProvider\": "@,
        s.subrange(ov, ag) == ser_opt_str(c.dns_provider),
        s.subrange(ag, ag + 15) == ",\n  \"godaddy\": "@,
        s.subrange(og, af) == ser_opt_godaddy(c.godaddy),
        s.subrange(af, af + 18) == ",\n  \"cloudflare\": "@,
        s.subrange(of, an) == ser_opt_cloudflare(c.cloudflare),
        s.subrange(an, an + 17) == ",\n  \"namecheap\": "@,
    ensures
        sp_ws(s, i + 1) == i + 4,
        s[i + 4] == '"',
        sp_str_body(s, i + 5) == Option::Some(("dnsProvider"@, i + 17)),
        sp_ws(s, i + 17) == i + 17,
        s[i + 17] == ':',
        sp_ws(s, i + 18) == ov,
        sp_opt_string_value(s, ov) == Option::Some((c.dns_provider, ag)),
        sp_ws(s, ag) == ag,
        s[ag] == ',',
        sp_ws(s, ag + 1) == ag + 4,
        s[ag + 4] == '"',
        sp_str_body(s, ag + 5) == Option::Some(("godaddy"@, ag + 13)),
        sp_ws(s, ag + 13) == ag + 13,
        s[ag + 13] == ':',
        sp_ws(s, ag + 14) == og,
        sp_opt_gd_value(s, og) == Option::Some((c.godaddy, af)),
        sp_ws(s, af) == af,
        s[af] == ',',
        sp_ws(s, af + 1) == af + 4,
        s[af + 4] == '"',
        sp_str_body(s, af + 5) == Option::Some(("cloudflare"@, af + 16)),
        sp_ws(s, af + 16) == af + 16,
        s[af + 16] == ':',
        sp_ws(s, af + 17) == of,
        sp_opt_cf_value(s, of) == Option::Some((c.cloudflare, an)),
        sp_ws(s, an) == an,
        s[an] == ',',
{
    reveal_strlit("{\n  \"dnsProvider\": ");
    reveal_strlit(",\n  \"godaddy\": ");
    reveal_strlit(",\n  \"cloudflare\": ");
    reveal_strlit(",\n  \"namecheap\": ");
    reveal_strlit("dnsProvider");
    reveal_strlit("godaddy");
    reveal_strlit("cloudflare");
    let c0t = "{\n  \"dnsProvider\": "@;
    let c1t = ",\n  \"godaddy\": "@;
    let c2t = ",\n  \"cloudflare\": "@;
    let c3t = ",\n  \"namecheap\": "@;
    let k0 = "dnsProvider"@;
    let k1 = "godaddy"@;
    let k2 = "cloudflare"@;
    let vv = ser_opt_str(c.dns_provider);
    let vg = ser_opt_godaddy(c.godaddy);
    let vf = ser_opt_cloudflare(c.cloudflare);
    lemma_opt_str_props(c.dns_provider);
    lemma_opt_gd_props(c.godaddy);
    lemma_opt_cf_props(c.cloudflare);
    // member 1: dnsProvider
    assert forall|x: int| 0 <= x < 3 implies is_ws(#[trigger] s[(i + 1) + x]) by {
        lemma_char_at(s, i, c0t, x + 1);
    }
    assert forall|x: int| 0 <= x < k0.len() implies plain_char(#[trigger] k0[x]) by {}
    lemma_sub_at(s, i, c0t, 5, 16);
    assert(c0t.subrange(5, 16) =~= k0);
    lemma_char_at(s, i, c0t, 4);
    lemma_char_at(s, i, c0t, 16);
    lemma_char_at(s, i, c0t, 17);
    lemma_char_at(s, i, c0t, 18);
    lemma_char_at(s, ov, vv, 0);
    assert(s[i + 4] == '"');
    assert(s[i + 16] == '"');
    assert(s[i + 17] == ':');
    assert(s[i + 18] == ' ');
    assert(s[ov + 0] == vv[0]);
    assert(!is_ws(s[(i + 1) + 3 + k0.len() + 4]));
    lemma_member_header(s, i + 1, 3, k0);
    lemma_opt_str_value(s, ov, c.dns_provider);
    lemma_char_at(s, ag, c1t, 0);
    assert(s[ag + 0] == ',');
    lemma_ws_run(s, ag, 0);
    // member 2: godaddy
    let p2 = ag + 1;
    assert forall|x: int| 0 <= x < 3 implies is_ws(#[trigger] s[p2 + x]) by {
        lemma_char_at(s, ag, c1t, x + 1);
    }
    assert forall|x: int| 0 <= x < k1.len() implies plain_char(#[trigger] k1[x]) by {}
    lemma_sub_at(s, ag, c1t, 5, 12);
    assert(c1t.subrange(5, 12) =~= k1);
    lemma_char_at(s, ag, c1t, 4);
    lemma_char_at(s, ag, c1t, 12);
    lemma_char_at(s, ag, c1t, 13);
    lemma_char_at(s, ag, c1t, 14);
    lemma_char_at(s, og, vg, 0);
    assert(s[p2 + 3] == '"');
    assert(s[p2 + 3 + k1.len() + 1] == '"');
    assert(s[p2 + 3 + k1.len() + 2] == ':');
    assert(s[p2 + 3 + k1.len() + 3] == ' ');
    assert(s[og + 0] == vg[0]);
    assert(!is_ws(s[p2 + 3 + k1.len() + 4]));
    lemma_member_header(s, p2, 3, k1);
    lemma_opt_gd_value(s, og, c.godaddy);
    lemma_char_at(s, af, c2t, 0);
    assert(s[af + 0] == ',');
    lemma_ws_run(s, af, 0);
    // member 3: cloudflare
    let p3 = af + 1;
    assert forall|x: int| 0 <= x < 3 implies is_ws(#[trigger] s[p3 + x]) by {
        lemma_char_at(s, af, c2t, x + 1);
    }
    assert forall|x: int| 0 <= x < k2.len() implies plain_char(#[trigger] k2[x]) by {}
    lemma_sub_at(s, af, c2t, 5, 15);
    assert(c2t.subrange(5, 15) =~= k2);
    lemma_char_at(s, af, c2t, 4);
    lemma_char_at(s, af, c2t, 15);
    lemma_char_at(s, af, c2t, 16);
    lemma_char_at(s, af, c2t, 17);
    lemma_char_at(s, of, vf, 0);
    assert(s[p3 + 3] == '"');
    assert(s[p3 + 3 + k2.len() + 1] == '"');
    assert(s[p3 + 3 + k2.len() + 2] == ':');
    assert(s[p3 + 3 + k2.len() + 3] == ' ');
    assert(s[of + 0] == vf[0]);
    assert(!is_ws(s[p3 + 3 + k2.len() + 4]));
    lemma_member_header(s, p3, 3, k2);
    lemma_opt_cf_value(s, of, c.cloudflare);
    lemma_char_at(s, an, c3t, 0);
    assert(s[an + 0] == ',');
    lemma_ws_run(s, an, 0);
}

/// Cursor facts for the last two top-level members and the closing
/// brace.
#[verifier::rlimit(100)]
proof fn lemma_cfg_b(s: Seq<char>, c: ConfigV, an: int, on: int, ah: int, oh: int, ae: int, e: int)
    requires
        0 <= an,
        on == an + 17,
        ah == on + ser_opt_namecheap(c.namecheap).len(),
        oh == ah + 14,
        ae == oh + ser_opt_github(c.github).len(),
        e == ae + 2,
        e <= s.len(),
        s.subrange(an, an + 17) == ",\n  \"namecheap\": "@,
        s.subrange(on, ah) == ser_opt_namecheap(c.namecheap),
        s.subrange(ah, ah + 14) == ",\n  \"github\": "@,
        s.subrange(oh, ae) == ser_opt_github(c.github),
        s.subrange(ae, ae + 2) == "\n}"@,
    ensures
        sp_ws(s, an + 1) == an + 4,
        s[an + 4] == '"',
        sp_str_body(s, an + 5) == Option::Some(("namecheap"@, an + 15)),
        sp_ws(s, an + 15) == an + 15,
        s[an + 15] == ':',
        sp_ws(s, an + 16) == on,
        sp_opt_nc_value(s, on) == Option::Some((c.namecheap, ah)),
        sp_ws(s, ah) == ah,
        s[ah] == ',',
        sp_ws(s, ah + 1) == ah + 4,
        s[ah + 4] == '"',
        sp_str_body(s, ah + 5) == Option::Some(("github"@, ah + 12)),
        sp_ws(s, ah + 12) == ah + 12,
        s[ah + 12] == ':',
        sp_ws(s, ah + 13) == oh,
        sp_opt_gh_value(s, oh) == Option::Some((c.github, ae)),
        sp_ws(s, ae) == ae + 1,
        s[ae + 1] == '}',
{
    reveal_strlit(",\n  \"namecheap\": ");
    reveal_strlit(",\n  \"github\": ");
    reveal_strlit("\n}");
    reveal_strlit("namecheap");
    reveal_strlit("github");
    let c3t = ",\n  \"namecheap\": "@;
    let c4t = ",\n  \"github\": "@;
    let c5t = "\n}"@;
    let k3 = "namecheap"@;
    let k4 = "github"@;
    let vn = ser_opt_namecheap(c.namecheap);
    let vh = ser_opt_github(c.github);
    lemma_opt_nc_props(c.namecheap);
    lemma_opt_gh_props(c.github);
    // member 4: namecheap
    let p4 = an + 1;
    assert forall|x: int| 0 <= x < 3 implies is_ws(#[trigger] s[p4 + x]) by {
        lemma_char_at(s, an, c3t, x + 1);
    }
    assert forall|x: int| 0 <= x < k3.len() implies plain_char(#[trigger] k3[x]) by {}
    lemma_sub_at(s, an, c3t, 5, 14);
    assert(c3t.subrange(5, 14) =~= k3);
    lemma_char_at(s, an, c3t, 4);
    lemma_char_at(s, an, c3t, 14);
    lemma_char_at(s, an, c3t, 15);
    lemma_char_at(s, an, c3t, 16);
    lemma_char_at(s, on, vn, 0);
    assert(s[p4 + 3] == '"');
    assert(s[p4 + 3 + k3.len() + 1] == '"');
    assert(s[p4 + 3 + k3.len() + 2] == ':');
    assert(s[p4 + 3 + k3.len() + 3] == ' ');
    assert(s[on + 0] == vn[0]);
    assert(!is_ws(s[p4 + 3 + k3.len() + 4]));
    lemma_member_header(s, p4, 3, k3);
    lemma_opt_nc_value(s, on, c.namecheap);
    lemma_char_at(s, ah, c4t, 0);
    assert(s[ah + 0] == ',');
    lemma_ws_run(s, ah, 0);
    // member 5: github
    let p5 = ah + 1;
    assert forall|x: int| 0 <= x < 3 implies is_ws(#[trigger] s[p5 + x]) by {
        lemma_char_at(s, ah, c4t, x + 1);
    }
    assert forall|x: int| 0 <= x < k4.len() implies plain_char(#[trigger] k4[x]) by {}
    lemma_sub_at(s, ah, c4t, 5, 11);
    assert(c4t.subrange(5, 11) =~= k4);
    lemma_char_at(s, ah, c4t, 4);
    lemma_char_at(s, ah, c4t, 11);
    lemma_char_at(s, ah, c4t, 12);
    lemma_char_at(s, ah, c4t, 13);
    lemma_char_at(s, oh, vh, 0);
    assert(s[p5 + 3] == '"');
    assert(s[p5 + 3 + k4.len() + 1] == '"');
    assert(s[p5 + 3 + k4.len() + 2] == ':');
    assert(s[p5 + 3 + k4.len() + 3] == ' ');
    assert(s[oh + 0] == vh[0]);
    assert(!is_ws(s[p5 + 3 + k4.len() + 4]));
    lemma_member_header(s, p5, 3, k4);
    lemma_opt_gh_value(s, oh, c.github);
    // closing: newline, brace
    assert forall|x: int| 0 <= x < 1 implies is_ws(#[trigger] s[ae + x]) by {
        lemma_char_at(s, ae, c5t, x);
    }
    lemma_char_at(s, ae, c5t, 1);
    assert(s[ae + 1] == '}');
    lemma_ws_run(s, ae, 1);
}

/// Parsing the whole top-level object over its serialized form
/// yields the configuration back.
#[verifier::rlimit(100)]
proof fn lemma_cfg_record(s: Seq<char>, i: int, c: ConfigV)
    requires
        0 <= i,
        i + ser_config(c).len() <= s.len(),
        s.subrange(i, i + ser_config(c).len()) == ser_config(c),
    ensures
        s[i] == '{',
        sp_cfg_members(s, i + 1, ConfigV::all_absent(), false, false, false, false, false, true)
            == Option::Some((c, i + ser_config(c).len())),
{
    reveal_strlit("{\n  \"dnsProvider\": ");
    reveal_strlit(",\n  \"godaddy\": ");
    reveal_strlit(",\n  \"cloudflare\": ");
    reveal_strlit(",\n  \"namecheap\": ");
    reveal_strlit(",\n  \"github\": ");
    reveal_strlit("\n}");
    assert("{\n  \"dnsProvider\": "@.len() == 19);
    assert(",\n  \"godaddy\": "@.len() == 15);
    assert(",\n  \"cloudflare\": "@.len() == 18);
    assert(",\n  \"namecheap\": "@.len() == 17);
    assert(",\n  \"github\": "@.len() == 14);
    assert("\n}"@.len() == 2);
    let vv = ser_opt_str(c.dns_provider);
    let vg = ser_opt_godaddy(c.godaddy);
    let vf = ser_opt_cloudflare(c.cloudflare);
    let vn = ser_opt_namecheap(c.namecheap);
    let vh = ser_opt_github(c.github);
    lemma_opt_str_props(c.dns_provider);
    lemma_opt_gd_props(c.godaddy);
    lemma_opt_cf_props(c.cloudflare);
    lemma_opt_nc_props(c.namecheap);
    lemma_opt_gh_props(c.github);
    let ov = i + 19;
    let ag = ov + vv.len();
    let og = ag + 15;
    let af = og + vg.len();
    let of = af + 18;
    let an = of + vf.len();
    let on = an + 17;
    let ah = on + vn.len();
    let oh = ah + 14;
    let ae = oh + vh.len();
    let e = ae + 2;
    assert(e == i + ser_config(c).len());
    lemma_cfg_pieces(s, i, c);
    lemma_cfg_a(s, i, c, ov, ag, og, af, of, an);
    lemma_cfg_b(s, c, an, on, ah, oh, ae, e);
    lemma_char_at(s, i, "{\n  \"dnsProvider\": "@, 0);
    assert(s[i + 0] == '{');
    lemma_cfg_walk(s, i, c, ov, ag, og, af, of, an, on, ah, oh, ae, e);
}

/// Round-trip fidelity: for every configuration, parsing the
/// document that serialization produces yields the configuration
/// back, field for field, absent fields included.  `config_to_json`
/// produces exactly `ser_config` and `parse_config` decides exactly
/// `sp_config_doc`, so the law carries over to the executable pair.
pub proof fn lemma_round_trip(c: ConfigV)
    ensures
        sp_config_doc(ser_config(c)) == Option::Some(c),
{
    let s = ser_config(c);
    assert(s.subrange(0, s.len() as int) =~= s);
    lemma_cfg_record(s, 0, c);
    assert(s[0] == '{');
    lemma_ws_run(s, 0, 0);
    assert(sp_ws(s, 0) == 0);
    assert(sp_ws(s, s.len() as int) == s.len());
}

} // verus!

//! Serialization of a `Config` to the pretty-printed JSON document the
//! store writes to disk.  The whole output is pinned down by the spec
//! functions here: two-space indentation, every field present, absent
//! fields written as `null`, and string values escaped as JSON
//! requires (quote, backslash, and control characters).

use vstd::prelude::*;
use vstd::string::*;
use crate::config::{
    CloudflareConfig, CloudflareV, Config, ConfigV, GithubConfig, GithubV, GodaddyConfig, GodaddyV,
    NamecheapConfig, NamecheapV, opt_str_view,
};
use crate::text::push_char;

verus! {

/// The lower-case hexadecimal digit for a value below 16.
pub open spec fn hex_digit(v: int) -> char {
    if v == 0 { '0' } else if v == 1 { '1' } else if v == 2 { '2' } else if v == 3 { '3' }
    else if v == 4 { '4' } else if v == 5 { '5' } else if v == 6 { '6' } else if v == 7 { '7' }
    else if v == 8 { '8' } else if v == 9 { '9' } else if v == 10 { 'a' } else if v == 11 { 'b' }
    else if v == 12 { 'c' } else if v == 13 { 'd' } else if v == 14 { 'e' } else { 'f' }
}

/// The JSON escape of one character: quote and backslash get a
/// backslash escape, the five named control characters their short
/// form, any other control character a `\u00xx` form, and everything
/// else stands for itself.
pub open spec fn esc_char(c: char) -> Seq<char> {
    if c == '"' { seq!['\\', '"'] }
    else if c == '\\' { seq!['\\', '\\'] }
    else if c == '\u{8}' { seq!['\\', 'b'] }
    else if c == '\u{c}' { seq!['\\', 'f'] }
    else if c == '\n' { seq!['\\', 'n'] }
    else if c == '\r' { seq!['\\', 'r'] }
    else if c == '\t' { seq!['\\', 't'] }
    else if (c as u32) < 32 {
        seq!['\\', 'u', '0', '0', hex_digit((c as u32) as int / 16), hex_digit((c as u32) as int % 16)]
    } else {
        seq![c]
    }
}

/// The JSON escape of a whole string value.
pub open spec fn esc(s: Seq<char>) -> Seq<char>
    decreases s.len(),
{
    if s.len() == 0 {
        Seq::empty()
    } else {
        esc_char(s[0]) + esc(s.subrange(1, s.len() as int))
    }
}

/// Escaping distributes over concatenation.
pub proof fn lemma_esc_append(s: Seq<char>, t: Seq<char>)
    ensures
        esc(s + t) == esc(s) + esc(t),
    decreases s.len(),
{
    if s.len() == 0 {
        assert(s + t =~= t);
        assert(esc(s) + esc(t) =~= esc(t));
    } else {
        assert((s + t).subrange(1, (s + t).len() as int) =~= s.subrange(1, s.len() as int) + t);
        lemma_esc_append(s.subrange(1, s.len() as int), t);
        assert(esc_char((s + t)[0]) == esc_char(s[0]));
        assert(esc_char(s[0]) + (esc(s.subrange(1, s.len() as int)) + esc(t)) =~= (esc_char(s[0])
            + esc(s.subrange(1, s.len() as int))) + esc(t));
    }
}

/// A quoted, escaped JSON string literal.
pub open spec fn ser_str_lit(s: Seq<char>) -> Seq<char> {
    seq!['"'] + esc(s) + seq!['"']
}

/// An optional string value: `null` when absent.
pub open spec fn ser_opt_str(v: Option<Seq<char>>) -> Seq<char> {
    match v {
        Option::None => "null"@,
        Option::Some(s) => ser_str_lit(s),
    }
}

/// The GoDaddy record, as nested pretty JSON.
pub open spec fn ser_godaddy(g: GodaddyV) -> Seq<char> {
    "{\n    \"apiKey\": "@ + ser_opt_str(g.api_key) + ",\n    \"apiSecret\": "@ + ser_opt_str(
        g.api_secret,
    ) + ",\n    \"environment\": "@ + ser_opt_str(g.environment) + "\n  }"@
}

/// The Cloudflare record, as nested pretty JSON.
pub open spec fn ser_cloudflare(c: CloudflareV) -> Seq<char> {
    "{\n    \"apiToken\": "@ + ser_opt_str(c.api_token) + "\n  }"@
}

/// The Namecheap record, as nested pretty JSON.
pub open spec fn ser_namecheap(n: NamecheapV) -> Seq<char> {
    "{\n    \"apiUser\": "@ + ser_opt_str(n.api_user) + ",\n    \"apiKey\": "@ + ser_opt_str(
        n.api_key,
    ) + ",\n    \"clientIp\": "@ + ser_opt_str(n.client_ip) + "\n  }"@
}

/// The GitHub record, as nested pretty JSON.
pub open spec fn ser_github(g: GithubV) -> Seq<char> {
    "{\n    \"token\": "@ + ser_opt_str(g.token) + "\n  }"@
}

pub open spec fn ser_opt_godaddy(v: Option<GodaddyV>) -> Seq<char> {
    match v {
        Option::None => "null"@,
        Option::Some(g) => ser_godaddy(g),
    }
}

pub open spec fn ser_opt_cloudflare(v: Option<CloudflareV>) -> Seq<char> {
    match v {
        Option::None => "null"@,
        Option::Some(c) => ser_cloudflare(c),
    }
}

pub open spec fn ser_opt_namecheap(v: Option<NamecheapV>) -> Seq<char> {
    match v {
        Option::None => "null"@,
        Option::Some(n) => ser_namecheap(n),
    }
}

pub open spec fn ser_opt_github(v: Option<GithubV>) -> Seq<char> {
    match v {
        Option::None => "null"@,
        Option::Some(g) => ser_github(g),
    }
}

/// The whole config document: a pretty-printed JSON object with every
/// field present, in a fixed key order.
pub open spec fn ser_config(c: ConfigV) -> Seq<char> {
    "{\n  \"dnsProvider\": "@ + ser_opt_str(c.dns_provider) + ",\n  \"godaddy\": "@
        + ser_opt_godaddy(c.godaddy) + ",\n  \"cloudflare\": "@ + ser_opt_cloudflare(c.cloudflare)
        + ",\n  \"namecheap\": "@ + ser_opt_namecheap(c.namecheap) + ",\n  \"github\": "@
        + ser_opt_github(c.github) + "\n}"@
}

/// The lower-case hexadecimal digit for a value below 16.
fn hex_digit_exec(v: u32) -> (c: char)
    requires
        v < 16,
    ensures
        c == hex_digit(v as int),
{
    if v == 0 { '0' } else if v == 1 { '1' } else if v == 2 { '2' } else if v == 3 { '3' }
    else if v == 4 { '4' } else if v == 5 { '5' } else if v == 6 { '6' } else if v == 7 { '7' }
    else if v == 8 { '8' } else if v == 9 { '9' } else if v == 10 { 'a' } else if v == 11 { 'b' }
    else if v == 12 { 'c' } else if v == 13 { 'd' } else if v == 14 { 'e' } else { 'f' }
}

/// Appends the JSON escape of `s` to `out`.
fn escape_into(out: &mut String, s: &str)
    ensures
        final(out)@ == old(out)@ + esc(s@),
{
    let n = s.unicode_len();
    let mut i: usize = 0;
    proof {
        assert(s@.subrange(0, 0) =~= Seq::<char>::empty());
        assert(out@ + esc(s@.subrange(0, 0)) =~= out@);
    }
    while i < n
        invariant
            i <= n,
            n == s@.len(),
            out@ == old(out)@ + esc(s@.subrange(0, i as int)),
        decreases n - i,
    {
        let c = s.get_char(i);
        let ghost pre = s@.subrange(0, i as int);
        let ghost cur = out@;
        if c == '"' {
            push_char(out, '\\');
            push_char(out, '"');
        } else if c == '\\' {
            push_char(out, '\\');
            push_char(out, '\\');
        } else if c == '\u{8}' {
            push_char(out, '\\');
            push_char(out, 'b');
        } else if c == '\u{c}' {
            push_char(out, '\\');
            push_char(out, 'f');
        } else if c == '\n' {
            push_char(out, '\\');
            push_char(out, 'n');
        } else if c == '\r' {
            push_char(out, '\\');
            push_char(out, 'r');
        } else if c == '\t' {
            push_char(out, '\\');
            push_char(out, 't');
        } else if (c as u32) < 32 {
            push_char(out, '\\');
            push_char(out, 'u');
            push_char(out, '0');
            push_char(out, '0');
            push_char(out, hex_digit_exec((c as u32) / 16));
            push_char(out, hex_digit_exec((c as u32) % 16));
        } else {
            push_char(out, c);
        }
        proof {
            assert(out@ =~= cur + esc_char(c));
            assert(s@.subrange(0, i + 1) =~= pre + seq![c]);
            lemma_esc_append(pre, seq![c]);
            assert(seq![c].subrange(1, 1) =~= Seq::<char>::empty());
            assert(esc(seq![c]) == esc_char(c) + esc(Seq::<char>::empty()));
            assert(esc_char(c) + Seq::<char>::empty() =~= esc_char(c));
            assert(out@ =~= old(out)@ + esc(s@.subrange(0, i + 1)));
        }
        i += 1;
    }
    proof {
        assert(s@.subrange(0, n as int) =~= s@);
    }
}

/// Appends a quoted, escaped JSON string literal to `out`.
fn str_lit_into(out: &mut String, s: &str)
    ensures
        final(out)@ == old(out)@ + ser_str_lit(s@),
{
    push_char(out, '"');
    escape_into(out, s);
    push_char(out, '"');
    proof {
        assert(out@ =~= old(out)@ + ser_str_lit(s@));
    }
}

/// Appends an optional string value (`null` when absent) to `out`.
fn opt_str_into(out: &mut String, v: &Option<String>)
    ensures
        final(out)@ == old(out)@ + ser_opt_str(opt_str_view(*v)),
{
    match v {
        Option::None => {
            out.append("null");
        },
        Option::Some(s) => {
            str_lit_into(out, s.as_str());
        },
    }
}

/// Appends the GoDaddy record to `out`.
fn godaddy_into(out: &mut String, g: &GodaddyConfig)
    ensures
        final(out)@ == old(out)@ + ser_godaddy(g@),
{
    out.append("{\n    \"apiKey\": ");
    opt_str_into(out, &g.api_key);
    out.append(",\n    \"apiSecret\": ");
    opt_str_into(out, &g.api_secret);
    out.append(",\n    \"environment\": ");
    opt_str_into(out, &g.environment);
    out.append("\n  }");
    proof {
        assert(out@ =~= old(out)@ + ser_godaddy(g@));
    }
}

/// Appends the Cloudflare record to `out`.
fn cloudflare_into(out: &mut String, c: &CloudflareConfig)
    ensures
        final(out)@ == old(out)@ + ser_cloudflare(c@),
{
    out.append("{\n    \"apiToken\": ");
    opt_str_into(out, &c.api_token);
    out.append("\n  }");
    proof {
        assert(out@ =~= old(out)@ + ser_cloudflare(c@));
    }
}

/// Appends the Namecheap record to `out`.
fn namecheap_into(out: &mut String, n: &NamecheapConfig)
    ensures
        final(out)@ == old(out)@ + ser_namecheap(n@),
{
    out.append("{\n    \"apiUser\": ");
    opt_str_into(out, &n.api_user);
    out.append(",\n    \"apiKey\": ");
    opt_str_into(out, &n.api_key);
    out.append(",\n    \"clientIp\": ");
    opt_str_into(out, &n.client_ip);
    out.append("\n  }");
    proof {
        assert(out@ =~= old(out)@ + ser_namecheap(n@));
    }
}

/// Appends the GitHub record to `out`.
fn github_into(out: &mut String, g: &GithubConfig)
    ensures
        final(out)@ == old(out)@ + ser_github(g@),
{
    out.append("{\n    \"token\": ");
    opt_str_into(out, &g.token);
    out.append("\n  }");
    proof {
        assert(out@ =~= old(out)@ + ser_github(g@));
    }
}

/// Serializes a configuration to the exact pretty-printed JSON
/// document the store persists.
pub fn config_to_json(c: &Config) -> (r: String)
    ensures
        r@ == ser_config(c@),
{
    let mut out = String::new();
    out.append("{\n  \"dnsProvider\": ");
    opt_str_into(&mut out, &c.dns_provider);
    out.append(",\n  \"godaddy\": ");
    match &c.godaddy {
        Option::None => out.append("null"),
        Option::Some(g) => godaddy_into(&mut out, g),
    }
    out.append(",\n  \"cloudflare\": ");
    match &c.cloudflare {
        Option::None => out.append("null"),
        Option::Some(cf) => cloudflare_into(&mut out, cf),
    }
    out.append(",\n  \"namecheap\": ");
    match &c.namecheap {
        Option::None => out.append("null"),
        Option::Some(n) => namecheap_into(&mut out, n),
    }
    out.append(",\n  \"github\": ");
    match &c.github {
        Option::None => out.append("null"),
        Option::Some(g) => github_into(&mut out, g),
    }
    out.append("\n}");
    proof {
        assert(out@ =~= ser_config(c@));
    }
    out
}

} // verus!

use vstd::prelude::*;
use vstd::string::*;
use crate::config::opt_text;
use crate::text::{
    chars_of, decimal, digit_char, digit_char_of, has_prefix_str, is_ascii_alnum, lower_of,
    lowercase, push_char, push_decimal, str_eq,
};
use crate::validation::has_http_scheme;

verus! {

/// Whether a number is a TCP/UDP port: 1 to 65535.
pub fn is_valid_port(port: u32) -> (r: bool)
    ensures
        r == (0 < port < 65536),
{
    port > 0 && port < 65536
}

/// Whether a text begins with `http://` or `https://`.
pub fn is_valid_url(url: &str) -> (r: bool)
    ensures
        r == has_http_scheme(url@),
{
    has_prefix_str(url, "http://") || has_prefix_str(url, "https://")
}

/// Whether `char::is_alphanumeric` holds of a character.
pub uninterp spec fn alphanumeric(c: char) -> bool;

/// Relies on char::is_alphanumeric: Unicode `Alphabetic` or `Numeric`, which
/// among ASCII characters are the letters and digits.
#[verifier::external_body]
fn char_is_alphanumeric(c: char) -> (r: bool)
    ensures
        r == alphanumeric(c),
        (c as u32) < 128 ==> r == is_ascii_alnum(c),
{
    c.is_alphanumeric()
}

/// What a file name keeps of a character: letters, digits, `.`, `_` and `-`
/// stay, anything else becomes `_`.
pub open spec fn sanitized_char(c: char) -> char {
    if alphanumeric(c) || c == '.' || c == '_' || c == '-' {
        c
    } else {
        '_'
    }
}

/// What a file name keeps of a character, given whether it is alphanumeric.
pub fn file_name_char(c: char, is_alphanumeric: bool) -> (r: char)
    ensures
        r == if is_alphanumeric || c == '.' || c == '_' || c == '-' {
            c
        } else {
            '_'
        },
{
    if is_alphanumeric || c == '.' || c == '_' || c == '-' {
        c
    } else {
        '_'
    }
}

/// Replaces every character that does not belong in a file name by `_`.
pub fn sanitize_filename(filename: &str) -> (r: String)
    ensures
        r@ == filename@.map_values(|c: char| sanitized_char(c)),
{
    let cs = chars_of(filename);
    let mut out = String::new();
    let mut i: usize = 0;
    while i < cs.len()
        invariant
            i <= cs@.len(),
            cs@ == filename@,
            out@ == cs@.subrange(0, i as int).map_values(|c: char| sanitized_char(c)),
        decreases cs@.len() - i,
    {
        let c = cs[i];
        push_char(&mut out, file_name_char(c, char_is_alphanumeric(c)));
        i = i + 1;
        assert(out@ =~= cs@.subrange(0, i as int).map_values(|c: char| sanitized_char(c)));
    }
    assert(cs@.subrange(0, cs@.len() as int) =~= cs@);
    out
}

/// What `std::path::Path::extension` gives for a path, as text.
pub uninterp spec fn extension_of(path: Seq<char>) -> Option<Seq<char>>;

/// Relies on std::path::Path::extension: the part of the file name after its
/// last `.`, if the name has one that is not leading.
#[verifier::external_body]
fn path_extension(path: &str) -> (r: Option<String>)
    ensures
        opt_text(r) == extension_of(path@),
{
    std::path::Path::new(path).extension().and_then(|e| e.to_str()).map(|e| e.to_string())
}

/// The extension of a path's file name, in lower case.
pub fn get_file_extension(path: &str) -> (r: Option<String>)
    ensures
        opt_text(r) == match extension_of(path@) {
            Some(e) => Some(lower_of(e)),
            None => None,
        },
{
    match path_extension(path) {
        Some(e) => Some(lowercase(e.as_str())),
        None => None,
    }
}

/// The (lower case) extensions of script files.
pub open spec fn script_extension(e: Seq<char>) -> bool {
    e == "ps1"@ || e == "sh"@ || e == "bat"@ || e == "cmd"@ || e == "py"@ || e == "js"@ || e
        == "ts"@
}

/// Whether a lower case extension is one of a script file.
pub fn is_script_extension(ext: &str) -> (r: bool)
    ensures
        r == script_extension(ext@),
{
    str_eq(ext, "ps1") || str_eq(ext, "sh") || str_eq(ext, "bat") || str_eq(ext, "cmd") || str_eq(
        ext,
        "py",
    ) || str_eq(ext, "js") || str_eq(ext, "ts")
}

/// Whether a path names a script file, by its extension in lower case.
pub fn is_script_file(path: &str) -> (r: bool)
    ensures
        r == match extension_of(path@) {
            Some(e) => script_extension(lower_of(e)),
            None => false,
        },
{
    match get_file_extension(path) {
        Some(e) => is_script_extension(e.as_str()),
        None => false,
    }
}

/// `num / den` rounded to the nearest whole number, ties to the even one.
pub open spec fn round_half_even(num: nat, den: nat) -> nat
    recommends
        den > 0,
{
    let q = num / den;
    let r = num % den;
    if 2 * r > den || (2 * r == den && q % 2 == 1) {
        q + 1
    } else {
        q
    }
}

/// A size with one decimal: `bytes / unit` rounded to tenths, then the unit
/// name.
pub open spec fn scaled_size(bytes: nat, unit: nat, name: Seq<char>) -> Seq<char>
    recommends
        unit > 0,
{
    let tenths = round_half_even(bytes * 10, unit);
    decimal(tenths / 10) + seq!['.', digit_char(tenths % 10), ' '] + name
}

/// A byte count for people: whole bytes below 1024, else KB, MB or GB (of
/// 1024) with one decimal.
pub open spec fn size_text(bytes: nat) -> Seq<char> {
    if bytes < 1024 {
        decimal(bytes) + " B"@
    } else if bytes < 1024 * 1024 {
        scaled_size(bytes, 1024, "KB"@)
    } else if bytes < 1024 * 1024 * 1024 {
        scaled_size(bytes, 1024 * 1024, "MB"@)
    } else {
        scaled_size(bytes, 1024 * 1024 * 1024, "GB"@)
    }
}

fn push_scaled(out: &mut String, bytes: u64, unit: u64, name: &str)
    requires
        unit > 0,
    ensures
        final(out)@ == old(out)@ + scaled_size(bytes as nat, unit as nat, name@),
{
    let num: u128 = (bytes as u128) * 10;
    let den: u128 = unit as u128;
    let q: u128 = num / den;
    let r: u128 = num % den;
    let tenths: u128 = if 2 * r > den || (2 * r == den && q % 2 == 1) {
        q + 1
    } else {
        q
    };
    assert(tenths as nat == round_half_even(bytes as nat * 10, unit as nat));
    assert(tenths <= num) by (nonlinear_arith)
        requires
            q == num / den,
            den > 0,
            tenths <= q + 1,
            num >= 0,
            tenths == q || (tenths == q + 1 && 2 * r >= den && r == num % den),
    ;
    let ghost before = out@;
    push_decimal(out, (tenths / 10) as u64);
    push_char(out, '.');
    push_char(out, digit_char_of((tenths % 10) as u64));
    push_char(out, ' ');
    out.append(name);
    assert(final(out)@ =~= before + scaled_size(bytes as nat, unit as nat, name@));
}

/// Formats a byte count for people: `512 B`, `1.0 KB`, `1.5 MB`, `2.0 GB`.
pub fn format_file_size(bytes: u64) -> (r: String)
    ensures
        r@ == size_text(bytes as nat),
{
    let mut out = String::new();
    if bytes < 1024 {
        push_decimal(&mut out, bytes);
        out.append(" B");
    } else if bytes < 1024 * 1024 {
        push_scaled(&mut out, bytes, 1024, "KB");
    } else if bytes < 1024 * 1024 * 1024 {
        push_scaled(&mut out, bytes, 1024 * 1024, "MB");
    } else {
        push_scaled(&mut out, bytes, 1024 * 1024 * 1024, "GB");
    }
    assert(out@ =~= size_text(bytes as nat));
    out
}

} // verus!

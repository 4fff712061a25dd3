//! Trusted declarations: the outside functions the core relies on, each
//! behind a contract that Verus believes without proof, together with the
//! names given to results that cannot be written out.

use vstd::prelude::*;

verus! {

/// Whether `needle` occurs contiguously inside `hay`. An empty needle
/// occurs in every text.
pub open spec fn spec_contains(hay: Seq<char>, needle: Seq<char>) -> bool {
    exists|i: int|
        0 <= i <= hay.len() - needle.len() && #[trigger] hay.subrange(i, i + needle.len() as int)
            == needle
}

/// Relies on str::contains with a string pattern: true exactly when the
/// pattern occurs as a substring of the text.
#[verifier::external_body]
pub(crate) fn str_contains(hay: &str, needle: &str) -> (r: bool)
    ensures
        r == spec_contains(hay@, needle@),
{
    hay.contains(needle)
}

/// What str::to_lowercase returns: a function of the characters alone.
pub uninterp spec fn lower_of(s: Seq<char>) -> Seq<char>;

/// Relies on str::to_lowercase: the result depends on the characters
/// alone, and an empty string stays empty.
#[verifier::external_body]
pub(crate) fn to_lowercase(s: &str) -> (r: String)
    ensures
        r@ == lower_of(s@),
        s@.len() == 0 ==> r@.len() == 0,
{
    s.to_lowercase()
}

/// What str::replace returns: every occurrence of `from`, scanned left to
/// right without overlap, replaced by `to`.
pub uninterp spec fn str_replaced(text: Seq<char>, from: Seq<char>, to: Seq<char>) -> Seq<char>;

/// Relies on str::replace with a string pattern. Its documentation gives
/// that the result is the text with the matches of the pattern replaced,
/// so a text the pattern does not occur in comes back unchanged.
#[verifier::external_body]
pub(crate) fn replace_literal(text: &str, from: &str, to: &str) -> (r: String)
    ensures
        r@ == str_replaced(text@, from@, to@),
        !spec_contains(text@, from@) ==> r@ == text@,
{
    text.replace(from, to)
}

/// A decimal digit.
pub open spec fn spec_is_digit(c: char) -> bool {
    '0' <= c && c <= '9'
}

/// The value of a string of decimal digits.
pub open spec fn spec_decimal_value(s: Seq<char>) -> int
    decreases s.len(),
{
    if s.len() == 0 {
        0
    } else {
        spec_decimal_value(s.drop_last()) * 10 + (s.last() as int - '0' as int)
    }
}

/// What str::parse::<u8> returns: after an optional leading plus sign,
/// one or more decimal digits whose value fits in a u8; anything else is
/// nothing.
pub open spec fn spec_parsed_u8(s: Seq<char>) -> Option<u8> {
    let digits = if s.len() > 0 && s[0] == '+' {
        s.skip(1)
    } else {
        s
    };
    if digits.len() > 0 && (forall|i: int| 0 <= i < digits.len() ==> spec_is_digit(#[trigger] digits[i]))
        && spec_decimal_value(digits) <= 255 {
        Some(spec_decimal_value(digits) as u8)
    } else {
        None
    }
}

/// Relies on str::parse::<u8>: an optional leading plus sign, then
/// decimal digits, value at most 255; a minus sign, an empty digit run,
/// any other character, or overflow is an error.
#[verifier::external_body]
pub(crate) fn parse_u8(s: &str) -> (r: Option<u8>)
    ensures
        r == spec_parsed_u8(s@),
{
    s.parse::<u8>().ok()
}

/// What the md5 digest of a text renders to in lowercase hexadecimal: a
/// function of the text alone.
pub uninterp spec fn md5_hex_of(text: Seq<char>) -> Seq<char>;

/// Relies on md5::compute and the lowercase-hexadecimal rendering of
/// md5::Digest.
#[verifier::external_body]
pub(crate) fn md5_hex(text: &str) -> (r: String)
    ensures
        r@ == md5_hex_of(text@),
{
    format!("{:x}", md5::compute(text))
}

/// What compiling a pattern and matching it against a text yields:
/// nothing when the pattern does not compile, else whether it matches.
/// A function of the two strings alone.
pub uninterp spec fn regex_match_of(pattern: Seq<char>, text: Seq<char>) -> Option<bool>;

/// Relies on regex::Regex::new and regex::Regex::is_match.
#[verifier::external_body]
pub(crate) fn regex_match(pattern: &str, text: &str) -> (r: Option<bool>)
    ensures
        r == regex_match_of(pattern@, text@),
{
    match regex::Regex::new(pattern) {
        Ok(re) => Some(re.is_match(text)),
        Err(_) => None,
    }
}

/// What replacing the first match of a pattern yields: nothing when the
/// pattern does not compile, else the rewritten text.
pub uninterp spec fn regex_replaced_first(
    pattern: Seq<char>,
    text: Seq<char>,
    rep: Seq<char>,
) -> Option<Seq<char>>;

/// Relies on regex::Regex::new and regex::Regex::replace.
#[verifier::external_body]
pub(crate) fn regex_replace_first(pattern: &str, text: &str, rep: &str) -> (r: Option<String>)
    ensures
        ({
            let m = regex_replaced_first(pattern@, text@, rep@);
            match r {
                Some(s) => m == Some(s@),
                None => m is None,
            }
        }),
{
    match regex::Regex::new(pattern) {
        Ok(re) => Some(re.replace(text, rep).to_string()),
        Err(_) => None,
    }
}

/// What replacing every match of a pattern yields: nothing when the
/// pattern does not compile, else the rewritten text.
pub uninterp spec fn regex_replaced_all(
    pattern: Seq<char>,
    text: Seq<char>,
    rep: Seq<char>,
) -> Option<Seq<char>>;

/// Relies on regex::Regex::new and regex::Regex::replace_all.
#[verifier::external_body]
pub(crate) fn regex_replace_all(pattern: &str, text: &str, rep: &str) -> (r: Option<String>)
    ensures
        ({
            let m = regex_replaced_all(pattern@, text@, rep@);
            match r {
                Some(s) => m == Some(s@),
                None => m is None,
            }
        }),
{
    match regex::Regex::new(pattern) {
        Ok(re) => Some(re.replace_all(text, rep).to_string()),
        Err(_) => None,
    }
}

/// The views of a list of string pairs.
pub open spec fn pairs_view(v: Seq<(String, String)>) -> Seq<(Seq<char>, Seq<char>)> {
    v.map_values(|p: (String, String)| (p.0@, p.1@))
}

/// What rendering a template against a set of variable bindings yields:
/// nothing when the template does not render (an unknown key, or bad
/// syntax), else the rendered text. A function of the strings alone.
pub uninterp spec fn template_render(
    template: Seq<char>,
    vars: Seq<(Seq<char>, Seq<char>)>,
) -> Option<Seq<char>>;

/// Relies on strfmt::strfmt, handing it the bindings as a map.
#[verifier::external_body]
pub(crate) fn render_template(template: &str, vars: &Vec<(String, String)>) -> (r: Option<String>)
    ensures
        ({
            let m = template_render(template@, pairs_view(vars@));
            match r {
                Some(s) => m == Some(s@),
                None => m is None,
            }
        }),
{
    let map: std::collections::HashMap<String, String> = vars.iter().cloned().collect();
    strfmt::strfmt(template, &map).ok()
}

/// Whether a text is a JSON object holding `true` under the given key;
/// anything else, a parse error included, counts as false. A function of
/// the two strings alone.
pub uninterp spec fn json_bool_field(s: Seq<char>, key: Seq<char>) -> bool;

/// Relies on serde_json::from_str::<Value>, Value::get and Value::as_bool.
#[verifier::external_body]
pub(crate) fn json_bool_of(s: &str, key: &str) -> (r: bool)
    ensures
        r == json_bool_field(s@, key@),
{
    match serde_json::from_str::<serde_json::Value>(s) {
        Ok(v) => match v.get(key) {
            Some(b) => b.as_bool().unwrap_or(false),
            None => false,
        },
        Err(_) => false,
    }
}

#[verifier::external_type_specification]
#[verifier::external_body]
pub struct ExPickleDb(pickledb::PickleDb);

/// The keys the persisted store holds with a boolean value.
pub uninterp spec fn store_keys(db: pickledb::PickleDb) -> Set<Seq<char>>;

/// Relies on PickleDb::load_json and PickleDb::new_json: opens the store
/// persisted at the path, or starts an empty one when none can be read
/// there. Nothing is known of the keys an existing store holds.
#[verifier::external_body]
pub(crate) fn store_open(path: &str) -> pickledb::PickleDb {
    match pickledb::PickleDb::load_json(path, pickledb::PickleDbDumpPolicy::AutoDump) {
        Ok(db) => db,
        Err(_) => pickledb::PickleDb::new_json(path, pickledb::PickleDbDumpPolicy::AutoDump),
    }
}

/// Relies on PickleDb::get::<bool>: a stored boolean comes back exactly
/// for the keys the store holds one under.
#[verifier::external_body]
pub(crate) fn store_has(db: &pickledb::PickleDb, key: &str) -> (r: bool)
    ensures
        r == store_keys(*db).contains(key@),
{
    db.get::<bool>(key).is_some()
}

/// Relies on PickleDb::set: on success the key is recorded under a
/// boolean value; on failure (the store could not be dumped to disk) the
/// source rolls the change back, leaving the keys as they were.
#[verifier::external_body]
pub(crate) fn store_record(db: &mut pickledb::PickleDb, key: &str) -> (r: bool)
    ensures
        r ==> store_keys(*final(db)) == store_keys(*old(db)).insert(key@),
        !r ==> store_keys(*final(db)) == store_keys(*old(db)),
{
    db.set(key, &true).is_ok()
}

} // verus!

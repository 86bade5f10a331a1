//! Validation and normalization of module properties: identifiers, names,
//! versions, authors and descriptions.
//!
//! Length limits follow the on-disk encoding, so they are stated over the
//! UTF-8 byte length of a value; character rules are stated over the
//! character sequence itself.

use vstd::prelude::*;
use vstd::string::StringSliceAdditionalSpecFns;
use vstd::utf8::encode_utf8;

use crate::text::is_wspace;
use crate::text::is_wspace_char;
use crate::text::push_char;
use crate::text::spec_trim;
use crate::text::str_chars;
use crate::text::string_of_range;
use crate::text::trim_range;

verus! {

pub open spec fn is_ascii_digit(c: char) -> bool {
    48 <= c as u32 <= 57
}

pub open spec fn is_ascii_alpha(c: char) -> bool {
    (65 <= c as u32 <= 90) || (97 <= c as u32 <= 122)
}

pub open spec fn is_ascii_alnum(c: char) -> bool {
    is_ascii_digit(c) || is_ascii_alpha(c)
}

/// A control character: the C0 and C1 ranges and delete.
pub open spec fn is_control(c: char) -> bool {
    (c as u32) < 32 || (127 <= c as u32 <= 159)
}

pub(crate) fn is_ascii_digit_char(c: char) -> (r: bool)
    ensures
        r == is_ascii_digit(c),
{
    let u = c as u32;
    48 <= u && u <= 57
}

pub(crate) fn is_ascii_alnum_char(c: char) -> (r: bool)
    ensures
        r == is_ascii_alnum(c),
{
    let u = c as u32;
    (48 <= u && u <= 57) || (65 <= u && u <= 90) || (97 <= u && u <= 122)
}

/// The UTF-8 byte length of a string: what `str::len` reports.
pub open spec fn byte_len(s: &str) -> usize {
    s.spec_bytes().len() as usize
}

/// `s` contains none of the characters that end a line.
pub open spec fn line_break_free(s: Seq<char>) -> bool {
    forall|k: int| 0 <= k < s.len() ==> s[k] != '\n' && s[k] != '\r'
}

/// `s` contains no control character.
pub open spec fn control_free(s: Seq<char>) -> bool {
    forall|k: int| 0 <= k < s.len() ==> !is_control(#[trigger] s[k])
}

fn check_line_break_free(v: &Vec<char>) -> (r: bool)
    ensures
        r == line_break_free(v@),
{
    let mut i: usize = 0;
    while i < v.len()
        invariant
            0 <= i <= v@.len(),
            forall|k: int| 0 <= k < i ==> v@[k] != '\n' && v@[k] != '\r',
        decreases v@.len() - i,
    {
        let c = v[i];
        if c == '\n' || c == '\r' {
            return false;
        }
        i = i + 1;
    }
    true
}

fn check_control_free(v: &Vec<char>) -> (r: bool)
    ensures
        r == control_free(v@),
{
    let mut i: usize = 0;
    while i < v.len()
        invariant
            0 <= i <= v@.len(),
            forall|k: int| 0 <= k < i ==> !is_control(#[trigger] v@[k]),
        decreases v@.len() - i,
    {
        let u = v[i] as u32;
        if u < 32 || (127 <= u && u <= 159) {
            return false;
        }
        i = i + 1;
    }
    true
}

/// Whether the whole value is whitespace.
fn is_blank(v: &Vec<char>) -> (r: bool)
    ensures
        r == (spec_trim(v@).len() == 0),
{
    let (a, b) = trim_range(v, 0, v.len());
    proof {
        assert(v@.subrange(0, v@.len() as int) =~= v@);
    }
    a == b
}

/// A version string fit for a manifest: non-empty, at most 32 bytes, free
/// of control characters, and not all whitespace.
pub fn is_valid_version_string(version: &str) -> (r: bool)
    ensures
        r == (version@.len() > 0 && byte_len(version) <= 32 && control_free(version@)
            && spec_trim(version@).len() > 0),
{
    if version.is_empty() || version.len() > 32 {
        return false;
    }
    let v = str_chars(version);
    if !check_control_free(&v) {
        return false;
    }
    if is_blank(&v) {
        return false;
    }
    true
}

/// A displayable module name: non-empty, at most 100 bytes, on one line,
/// and not all whitespace.
pub fn is_valid_module_name(name: &str) -> (r: bool)
    ensures
        r == (name@.len() > 0 && byte_len(name) <= 100 && line_break_free(name@) && spec_trim(
            name@,
        ).len() > 0),
{
    if name.is_empty() || name.len() > 100 {
        return false;
    }
    let v = str_chars(name);
    if !check_line_break_free(&v) {
        return false;
    }
    if is_blank(&v) {
        return false;
    }
    true
}

/// A module description: possibly empty, at most 500 bytes, on one line.
pub fn is_valid_module_description(description: &str) -> (r: bool)
    ensures
        r == (byte_len(description) <= 500 && line_break_free(description@)),
{
    if description.len() > 500 {
        return false;
    }
    let v = str_chars(description);
    check_line_break_free(&v)
}

/// An author name: non-empty, at most 100 bytes, on one line, and not all
/// whitespace.
pub fn is_valid_author_name(author: &str) -> (r: bool)
    ensures
        r == (author@.len() > 0 && byte_len(author) <= 100 && line_break_free(author@)
            && spec_trim(author@).len() > 0),
{
    if author.is_empty() || author.len() > 100 {
        return false;
    }
    let v = str_chars(author);
    if !check_line_break_free(&v) {
        return false;
    }
    if is_blank(&v) {
        return false;
    }
    true
}

/// A version code orders releases, so it must be positive.
pub fn is_valid_version_code(version_code: i32) -> (r: bool)
    ensures
        r == (version_code > 0),
{
    version_code > 0
}

/// A character an identifier may contain under the loose rules: ASCII
/// letters and digits, underscore, hyphen.
pub open spec fn is_loose_id_char(c: char) -> bool {
    is_ascii_alnum(c) || c == '_' || c == '-'
}

pub open spec fn all_loose_id_chars(s: Seq<char>) -> bool {
    forall|k: int| 0 <= k < s.len() ==> is_loose_id_char(#[trigger] s[k])
}

/// Checks a module identifier under the loose rules and reports the first
/// failure: emptiness, length over 50 bytes, a foreign character, or a
/// leading digit.
pub fn validate_module_id(module_id: &str) -> (r: Result<(), String>)
    ensures
        ({
            let s = module_id@;
            if s.len() == 0 {
                r matches Err(e) && e@ == "Module ID cannot be empty"@
            } else if byte_len(module_id) > 50 {
                r matches Err(e) && e@ == "Module ID cannot be longer than 50 characters"@
            } else if !all_loose_id_chars(s) {
                r matches Err(e) && e@
                    == "Module ID can only contain letters, numbers, underscores, and hyphens"@
            } else if is_ascii_digit(s[0]) {
                r matches Err(e) && e@ == "Module ID cannot start with a number"@
            } else {
                r is Ok
            }
        }),
{
    if module_id.is_empty() {
        return Err("Module ID cannot be empty".to_owned());
    }
    if module_id.len() > 50 {
        return Err("Module ID cannot be longer than 50 characters".to_owned());
    }
    let v = str_chars(module_id);
    let mut i: usize = 0;
    while i < v.len()
        invariant
            0 <= i <= v@.len(),
            v@ == module_id@,
            module_id@.len() > 0,
            byte_len(module_id) <= 50,
            forall|k: int| 0 <= k < i ==> is_loose_id_char(#[trigger] v@[k]),
        decreases v@.len() - i,
    {
        let c = v[i];
        if !(is_ascii_alnum_char(c) || c == '_' || c == '-') {
            return Err(
                "Module ID can only contain letters, numbers, underscores, and hyphens".to_owned(),
            );
        }
        i = i + 1;
    }
    if is_ascii_digit_char(v[0]) {
        return Err("Module ID cannot start with a number".to_owned());
    }
    Ok(())
}

/// Checks an author name: non-empty and at most 100 bytes.
pub fn validate_author_name(author: &str) -> (r: Result<(), String>)
    ensures
        ({
            let s = author@;
            if s.len() == 0 {
                r matches Err(e) && e@ == "Author name cannot be empty"@
            } else if byte_len(author) > 100 {
                r matches Err(e) && e@ == "Author name cannot be longer than 100 characters"@
            } else {
                r is Ok
            }
        }),
{
    if author.is_empty() {
        return Err("Author name cannot be empty".to_owned());
    }
    if author.len() > 100 {
        return Err("Author name cannot be longer than 100 characters".to_owned());
    }
    Ok(())
}

/// Which component of a version number to raise.
#[derive(Debug, Clone)]
pub enum VersionPart {
    Major,
    Minor,
    Patch,
}

/// The version with an optional single `v` prefix removed.
pub open spec fn version_body(s: Seq<char>) -> Seq<char> {
    if s.len() > 0 && s[0] == 'v' {
        s.drop_first()
    } else {
        s
    }
}

/// The dot-separated components of a version string.
pub open spec fn version_parts(s: Seq<char>) -> Seq<Seq<char>> {
    crate::text::split_on(version_body(s), '.')
}

pub open spec fn all_parts_numeric(parts: Seq<Seq<char>>) -> bool {
    forall|k: int| 0 <= k < parts.len() ==> crate::num::spec_parse_u32(#[trigger] parts[k]) is Some
}

/// Checks the shape of a version string: an optional `v` prefix, then two
/// to four dot-separated numeric components.
pub fn validate_version(version: &str) -> (r: Result<(), String>)
    ensures
        ({
            let parts = version_parts(version@);
            if version@.len() == 0 {
                r matches Err(e) && e@ == "Version cannot be empty"@
            } else if parts.len() < 2 || parts.len() > 4 {
                r matches Err(e) && e@ == "Version must be in format X.Y or X.Y.Z or X.Y.Z.W"@
            } else if !all_parts_numeric(parts) {
                r matches Err(e) && e@ == "Version parts must be numbers"@
            } else {
                r is Ok
            }
        }),
{
    if version.is_empty() {
        return Err("Version cannot be empty".to_owned());
    }
    let v = str_chars(version);
    let start: usize = if v[0] == 'v' {
        1
    } else {
        0
    };
    proof {
        assert(version_body(version@) =~= v@.subrange(start as int, v@.len() as int));
    }
    let ranges = crate::text::split_ranges(&v, start, v.len(), '.');
    if ranges.len() < 2 || ranges.len() > 4 {
        return Err("Version must be in format X.Y or X.Y.Z or X.Y.Z.W".to_owned());
    }
    let ghost parts = version_parts(version@);
    let mut i: usize = 0;
    while i < ranges.len()
        invariant
            0 <= i <= ranges.len(),
            parts == version_parts(version@),
            ranges@.len() == parts.len(),
            forall|k: int|
                0 <= k < ranges@.len() ==> {
                    &&& #[trigger] ranges@[k].0 <= ranges@[k].1 <= v@.len()
                    &&& v@.subrange(ranges@[k].0 as int, ranges@[k].1 as int) == parts[k]
                },
            2 <= parts.len() <= 4,
            version@.len() > 0,
            forall|k: int|
                0 <= k < i ==> crate::num::spec_parse_u32(#[trigger] parts[k]) is Some,
        decreases ranges.len() - i,
    {
        let (a, b) = ranges[i];
        if crate::num::parse_u32_range(&v, a, b).is_none() {
            return Err("Version parts must be numbers".to_owned());
        }
        i = i + 1;
    }
    Ok(())
}

/// The numeric values of version components; meaningful only when every
/// component parses.
pub open spec fn part_vals(parts: Seq<Seq<char>>) -> Seq<int> {
    parts.map_values(|p: Seq<char>| crate::num::spec_parse_u32(p)->Some_0 as int)
}

/// Component list padded with zeros to at least three entries.
pub open spec fn padded_vals(vals: Seq<int>) -> Seq<int> {
    if vals.len() >= 3 {
        vals
    } else if vals.len() == 2 {
        vals.push(0)
    } else if vals.len() == 1 {
        vals.push(0).push(0)
    } else {
        vals.push(0).push(0).push(0)
    }
}

/// Raising one component resets the ones below it.
pub open spec fn bumped_vals(vals: Seq<int>, part: VersionPart) -> Seq<int> {
    match part {
        VersionPart::Major => vals.update(0, vals[0] + 1).update(1, 0).update(2, 0),
        VersionPart::Minor => vals.update(1, vals[1] + 1).update(2, 0),
        VersionPart::Patch => vals.update(2, vals[2] + 1),
    }
}

/// Components joined with dots, each in decimal.
pub open spec fn join_dec(vals: Seq<int>) -> Seq<char>
    decreases vals.len(),
{
    if vals.len() == 0 {
        Seq::empty()
    } else if vals.len() == 1 {
        crate::num::dec_of(vals[0] as nat)
    } else {
        crate::num::dec_of(vals[0] as nat) + seq!['.'] + join_dec(vals.drop_first())
    }
}

pub proof fn lemma_join_dec_snoc(vals: Seq<int>, x: int)
    ensures
        join_dec(vals.push(x)) == if vals.len() == 0 {
            crate::num::dec_of(x as nat)
        } else {
            join_dec(vals) + seq!['.'] + join_dec(seq![x])
        },
    decreases vals.len(),
{
    if vals.len() == 0 {
        assert(vals.push(x)[0] == x);
    } else {
        assert(vals.push(x)[0] == vals[0]);
        assert(vals.push(x).drop_first() =~= vals.drop_first().push(x));
        lemma_join_dec_snoc(vals.drop_first(), x);
        if vals.len() == 1 {
            assert(join_dec(vals) == crate::num::dec_of(vals[0] as nat));
            assert(join_dec(vals.push(x)) == crate::num::dec_of(vals[0] as nat) + seq!['.']
                + join_dec(seq![x]));
        } else {
            assert((join_dec(vals.drop_first()) + seq!['.'] + join_dec(seq![x])).len() > 0);
            assert(crate::num::dec_of(vals[0] as nat) + seq!['.'] + (join_dec(vals.drop_first())
                + seq!['.'] + join_dec(seq![x])) =~= (crate::num::dec_of(vals[0] as nat)
                + seq!['.'] + join_dec(vals.drop_first())) + seq!['.'] + join_dec(seq![x]));
        }
    }
}

/// The raised version string: parsed components, padded to three, one
/// component raised, re-joined, the `v` prefix kept if it was present.
pub open spec fn spec_increment(s: Seq<char>, part: VersionPart) -> Seq<char> {
    let vals = bumped_vals(padded_vals(part_vals(version_parts(s))), part);
    if s.len() > 0 && s[0] == 'v' {
        seq!['v'] + join_dec(vals)
    } else {
        join_dec(vals)
    }
}

/// Raises one component of a version string, after checking it as
/// [`validate_version`] does and reporting the same failures.
pub fn increment_version(version: &str, part: VersionPart) -> (r: Result<String, String>)
    ensures
        ({
            let parts = version_parts(version@);
            if version@.len() == 0 {
                r matches Err(e) && e@ == "Version cannot be empty"@
            } else if parts.len() < 2 || parts.len() > 4 {
                r matches Err(e) && e@ == "Version must be in format X.Y or X.Y.Z or X.Y.Z.W"@
            } else if !all_parts_numeric(parts) {
                r matches Err(e) && e@ == "Version parts must be numbers"@
            } else {
                r matches Ok(s) && s@ == spec_increment(version@, part)
            }
        }),
{
    match validate_version(version) {
        Err(e) => {
            return Err(e);
        },
        Ok(()) => {},
    }
    let ghost parts = version_parts(version@);
    let v = str_chars(version);
    let has_v = v.len() > 0 && v[0] == 'v';
    let start: usize = if has_v {
        1
    } else {
        0
    };
    proof {
        assert(version_body(version@) =~= v@.subrange(start as int, v@.len() as int));
    }
    let ranges = crate::text::split_ranges(&v, start, v.len(), '.');
    let mut vals: Vec<u64> = Vec::new();
    let mut i: usize = 0;
    while i < ranges.len()
        invariant
            0 <= i <= ranges.len(),
            v@ == version@,
            parts == version_parts(version@),
            ranges@.len() == parts.len(),
            forall|k: int|
                0 <= k < ranges@.len() ==> {
                    &&& #[trigger] ranges@[k].0 <= ranges@[k].1 <= v@.len()
                    &&& v@.subrange(ranges@[k].0 as int, ranges@[k].1 as int) == parts[k]
                },
            all_parts_numeric(parts),
            vals@.len() == i,
            forall|k: int| 0 <= k < i ==> #[trigger] vals@[k] as int == part_vals(parts)[k],
            forall|k: int| 0 <= k < i ==> #[trigger] vals@[k] <= u32::MAX,
        decreases ranges.len() - i,
    {
        let (a, b) = ranges[i];
        match crate::num::parse_u32_range(&v, a, b) {
            Some(x) => {
                vals.push(x as u64);
            },
            None => {
                proof {
                    assert(crate::num::spec_parse_u32(parts[i as int]) is None);
                }
                return Err("Version parts must be numbers".to_owned());
            },
        }
        i = i + 1;
    }
    proof {
        assert(vals@.map_values(|x: u64| x as int) =~= part_vals(parts));
    }
    proof {
        assert(2 <= vals@.len() <= 4);
    }
    if vals.len() < 3 {
        vals.push(0);
    }
    proof {
        assert(vals@.map_values(|x: u64| x as int) =~= padded_vals(part_vals(parts)));
        assert(forall|k: int| 0 <= k < vals@.len() ==> #[trigger] vals@[k] <= u32::MAX);
        assert(vals@.len() >= 3);
    }
    match part {
        VersionPart::Major => {
            let x = vals[0];
            vals[0] = x + 1;
            vals[1] = 0;
            vals[2] = 0;
        },
        VersionPart::Minor => {
            let x = vals[1];
            vals[1] = x + 1;
            vals[2] = 0;
        },
        VersionPart::Patch => {
            let x = vals[2];
            vals[2] = x + 1;
        },
    }
    proof {
        assert(vals@.map_values(|x: u64| x as int) =~= bumped_vals(
            padded_vals(part_vals(parts)),
            part,
        ));
    }
    let ghost target = bumped_vals(padded_vals(part_vals(parts)), part);
    let mut out = String::new();
    if has_v {
        push_char(&mut out, 'v');
    }
    let ghost prefix = out@;
    let mut j: usize = 0;
    while j < vals.len()
        invariant
            0 <= j <= vals@.len(),
            vals@.len() >= 1,
            target == vals@.map_values(|x: u64| x as int),
            out@ == prefix + join_dec(target.take(j as int)),
        decreases vals@.len() - j,
    {
        if j > 0 {
            push_char(&mut out, '.');
        }
        crate::num::push_dec_u64(&mut out, vals[j]);
        proof {
            assert(target.take(j as int).push(target[j as int]) =~= target.take(j as int + 1));
            lemma_join_dec_snoc(target.take(j as int), target[j as int]);
            assert(join_dec(seq![target[j as int]]) == crate::num::dec_of(
                target[j as int] as nat,
            ));
            assert(out@ =~= prefix + join_dec(target.take(j as int + 1)));
        }
        j = j + 1;
    }
    proof {
        assert(target.take(target.len() as int) =~= target);
        assert(out@ =~= spec_increment(version@, part));
    }
    Ok(out)
}

/// ASCII lowercase of a character; everything else is unchanged.
pub open spec fn lower_char(c: char) -> char {
    if c == 'A' {
        'a'
    } else if c == 'B' {
        'b'
    } else if c == 'C' {
        'c'
    } else if c == 'D' {
        'd'
    } else if c == 'E' {
        'e'
    } else if c == 'F' {
        'f'
    } else if c == 'G' {
        'g'
    } else if c == 'H' {
        'h'
    } else if c == 'I' {
        'i'
    } else if c == 'J' {
        'j'
    } else if c == 'K' {
        'k'
    } else if c == 'L' {
        'l'
    } else if c == 'M' {
        'm'
    } else if c == 'N' {
        'n'
    } else if c == 'O' {
        'o'
    } else if c == 'P' {
        'p'
    } else if c == 'Q' {
        'q'
    } else if c == 'R' {
        'r'
    } else if c == 'S' {
        's'
    } else if c == 'T' {
        't'
    } else if c == 'U' {
        'u'
    } else if c == 'V' {
        'v'
    } else if c == 'W' {
        'w'
    } else if c == 'X' {
        'x'
    } else if c == 'Y' {
        'y'
    } else if c == 'Z' {
        'z'
    } else {
        c
    }
}

pub(crate) fn lower_char_exec(c: char) -> (r: char)
    ensures
        r == lower_char(c),
{
    match c {
        'A' => 'a',
        'B' => 'b',
        'C' => 'c',
        'D' => 'd',
        'E' => 'e',
        'F' => 'f',
        'G' => 'g',
        'H' => 'h',
        'I' => 'i',
        'J' => 'j',
        'K' => 'k',
        'L' => 'l',
        'M' => 'm',
        'N' => 'n',
        'O' => 'o',
        'P' => 'p',
        'Q' => 'q',
        'R' => 'r',
        'S' => 's',
        'T' => 't',
        'U' => 'u',
        'V' => 'v',
        'W' => 'w',
        'X' => 'x',
        'Y' => 'y',
        'Z' => 'z',
        _ => c,
    }
}

/// ASCII-lowercased copy of a character sequence.
pub open spec fn lower_seq(s: Seq<char>) -> Seq<char> {
    s.map_values(|c: char| lower_char(c))
}

/// One pass of identifier cleanup: ASCII letters and digits are kept in
/// lowercase, a leading digit gets an underscore before it, interior
/// underscores and hyphens are kept, interior whitespace and dots become
/// underscores, everything else is dropped.
pub open spec fn sanitize_scan(s: Seq<char>, first: bool) -> Seq<char>
    decreases s.len(),
{
    if s.len() == 0 {
        Seq::empty()
    } else {
        let c = s[0];
        let rest = s.drop_first();
        if is_ascii_alnum(c) || (!first && (c == '_' || c == '-')) {
            if first && is_ascii_digit(c) {
                seq!['_', lower_char(c)] + sanitize_scan(rest, false)
            } else {
                seq![lower_char(c)] + sanitize_scan(rest, false)
            }
        } else if !first && (is_wspace(c) || c == '.') {
            seq!['_'] + sanitize_scan(rest, false)
        } else {
            sanitize_scan(rest, first)
        }
    }
}

/// The cleaned identifier: the scan's output, a fixed fallback when the
/// scan keeps nothing, truncated to 50 characters.
pub open spec fn spec_sanitize(s: Seq<char>) -> Seq<char> {
    let t = sanitize_scan(s, true);
    let u = if t.len() == 0 {
        "my_module"@
    } else {
        t
    };
    if u.len() > 50 {
        u.take(50)
    } else {
        u
    }
}

/// Cleans arbitrary input into a usable module identifier.
pub fn sanitize_module_id(input: &str) -> (r: String)
    ensures
        r@ == spec_sanitize(input@),
{
    let v = str_chars(input);
    let mut out: Vec<char> = Vec::new();
    let mut first = true;
    let mut i: usize = 0;
    proof {
        assert(input@.skip(0) =~= input@);
    }
    while i < v.len()
        invariant
            0 <= i <= v@.len(),
            v@ == input@,
            sanitize_scan(input@, true) == out@ + sanitize_scan(input@.skip(i as int), first),
        decreases v@.len() - i,
    {
        let ghost pre = out@;
        let ghost rest = input@.skip(i as int);
        let ghost first0 = first;
        proof {
            assert(rest[0] == v@[i as int]);
            assert(rest.drop_first() =~= input@.skip(i as int + 1));
        }
        let c = v[i];
        if is_ascii_alnum_char(c) || (!first && (c == '_' || c == '-')) {
            if first && is_ascii_digit_char(c) {
                out.push('_');
            }
            out.push(lower_char_exec(c));
            first = false;
        } else if !first && (is_wspace_char(c) || c == '.') {
            out.push('_');
        }
        proof {
            assert(pre + sanitize_scan(rest, first0) =~= out@ + sanitize_scan(
                input@.skip(i as int + 1),
                first,
            ));
        }
        i = i + 1;
    }
    proof {
        assert(input@.skip(input@.len() as int) =~= Seq::<char>::empty());
        assert(out@ == sanitize_scan(input@, true));
    }
    let mut res: Vec<char> = if out.len() == 0 {
        str_chars("my_module")
    } else {
        out
    };
    if res.len() > 50 {
        res.truncate(50);
    }
    let s = string_of_range(&res, 0, res.len());
    proof {
        assert(res@.subrange(0, res@.len() as int) =~= res@);
        assert(s@ =~= spec_sanitize(input@));
    }
    s
}

/// A character allowed in a strict module identifier.
pub open spec fn is_strict_id_char(c: char) -> bool {
    is_ascii_alnum(c) || c == '.' || c == '_' || c == '-'
}

pub open spec fn is_separator(c: char) -> bool {
    c == '.' || c == '_' || c == '-'
}

/// The names a module identifier may not take, compared case-insensitively.
pub open spec fn is_reserved_lower(s: Seq<char>) -> bool {
    ||| s == "android"@
    ||| s == "system"@
    ||| s == "framework"@
    ||| s == "root"@
    ||| s == "shell"@
    ||| s == "bin"@
    ||| s == "etc"@
    ||| s == "proc"@
    ||| s == "sys"@
    ||| s == "dev"@
    ||| s == "data"@
    ||| s == "cache"@
    ||| s == "config"@
    ||| s == "META-INF"@
}

/// The strict module identifier rules: 1 to 64 bytes, a leading ASCII
/// letter, only letters, digits, dots, underscores and hyphens, no two
/// adjacent separators, no trailing separator, and no reserved name.
pub open spec fn strict_module_id_ok(s: Seq<char>, nbytes: usize) -> bool {
    &&& s.len() > 0
    &&& nbytes <= 64
    &&& is_ascii_alpha(s[0])
    &&& forall|k: int| 0 <= k < s.len() ==> is_strict_id_char(#[trigger] s[k])
    &&& forall|k: int| 1 <= k < s.len() ==> !(is_separator(s[k]) && is_separator(#[trigger] s[k
        - 1]))
    &&& !is_separator(s[s.len() - 1])
    &&& !is_reserved_lower(lower_seq(s))
}

/// Whether a module identifier meets the strict loader rules.
pub fn is_valid_module_id(module_id: &str) -> (r: bool)
    ensures
        r == strict_module_id_ok(module_id@, byte_len(module_id)),
{
    if module_id.is_empty() || module_id.len() > 64 {
        return false;
    }
    let v = str_chars(module_id);
    if !is_ascii_alpha_char(v[0]) {
        return false;
    }
    let mut i: usize = 0;
    while i < v.len()
        invariant
            0 <= i <= v@.len(),
            v@ == module_id@,
            module_id@.len() > 0,
            byte_len(module_id) <= 64,
            is_ascii_alpha(v@[0]),
            forall|k: int| 0 <= k < i ==> is_strict_id_char(#[trigger] v@[k]),
        decreases v@.len() - i,
    {
        let c = v[i];
        if !(is_ascii_alnum_char(c) || c == '.' || c == '_' || c == '-') {
            return false;
        }
        i = i + 1;
    }
    let mut k: usize = 1;
    while k < v.len()
        invariant
            1 <= k <= v@.len() || v@.len() == 0,
            v@ == module_id@,
            module_id@.len() > 0,
            byte_len(module_id) <= 64,
            is_ascii_alpha(v@[0]),
            forall|j: int| 0 <= j < v@.len() ==> is_strict_id_char(#[trigger] v@[j]),
            forall|j: int|
                1 <= j < k ==> !(is_separator(v@[j]) && is_separator(#[trigger] v@[j - 1])),
        decreases v@.len() - k,
    {
        let c = v[k];
        let p = v[k - 1];
        if (c == '.' || c == '_' || c == '-') && (p == '.' || p == '_' || p == '-') {
            return false;
        }
        k = k + 1;
    }
    let last = v[v.len() - 1];
    if last == '.' || last == '_' || last == '-' {
        return false;
    }
    let mut lowered: Vec<char> = Vec::new();
    let mut j: usize = 0;
    while j < v.len()
        invariant
            0 <= j <= v@.len(),
            lowered@ =~= lower_seq(v@).take(j as int),
        decreases v@.len() - j,
    {
        lowered.push(lower_char_exec(v[j]));
        proof {
            assert(lower_seq(v@).take(j as int).push(lower_seq(v@)[j as int]) =~= lower_seq(
                v@,
            ).take(j as int + 1));
        }
        j = j + 1;
    }
    proof {
        assert(lowered@ =~= lower_seq(v@));
    }
    if vec_eq_str(&lowered, "android") || vec_eq_str(&lowered, "system") || vec_eq_str(
        &lowered,
        "framework",
    ) || vec_eq_str(&lowered, "root") || vec_eq_str(&lowered, "shell") || vec_eq_str(
        &lowered,
        "bin",
    ) || vec_eq_str(&lowered, "etc") || vec_eq_str(&lowered, "proc") || vec_eq_str(
        &lowered,
        "sys",
    ) || vec_eq_str(&lowered, "dev") || vec_eq_str(&lowered, "data") || vec_eq_str(
        &lowered,
        "cache",
    ) || vec_eq_str(&lowered, "config") || vec_eq_str(&lowered, "META-INF") {
        return false;
    }
    true
}

pub(crate) fn is_ascii_alpha_char(c: char) -> (r: bool)
    ensures
        r == is_ascii_alpha(c),
{
    let u = c as u32;
    (65 <= u && u <= 90) || (97 <= u && u <= 122)
}

/// Whether `v` holds exactly the literal `p`.
pub(crate) fn vec_eq_str(v: &Vec<char>, p: &str) -> (r: bool)
    ensures
        r == (v@ == p@),
{
    let n = p.unicode_len();
    if n != v.len() {
        return false;
    }
    let mut i: usize = 0;
    while i < n
        invariant
            0 <= i <= n,
            n == p@.len() == v@.len(),
            forall|k: int| 0 <= k < i ==> v@[k] == p@[k],
        decreases n - i,
    {
        if v[i] != p.get_char(i) {
            return false;
        }
        i = i + 1;
    }
    proof {
        assert(v@ =~= p@);
    }
    true
}

/// Checks a full set of module properties in order and reports the first
/// failure with a message naming the offending value.
pub fn validate_module_props(
    id: &str,
    name: &str,
    version: &str,
    version_code: i32,
    author: &str,
    description: &str,
) -> (r: Result<(), String>)
    ensures
        ({
            if !strict_module_id_ok(id@, byte_len(id)) {
                r matches Err(e) && e@ == "\u{65e0}\u{6548}\u{7684}\u{6a21}\u{5757}ID '"@ + id@
                    + "': \u{5fc5}\u{987b}\u{4ee5}\u{5b57}\u{6bcd}\u{5f00}\u{5934}\u{ff0c}\u{53ea}\u{80fd}\u{5305}\u{542b}\u{5b57}\u{6bcd}\u{3001}\u{6570}\u{5b57}\u{3001}\u{70b9}(.)\u{3001}\u{4e0b}\u{5212}\u{7ebf}(_)\u{3001}\u{8fde}\u{5b57}\u{7b26}(-)"@
            } else if !(name@.len() > 0 && byte_len(name) <= 100 && line_break_free(name@)
                && spec_trim(name@).len() > 0) {
                r matches Err(e) && e@ == "\u{65e0}\u{6548}\u{7684}\u{6a21}\u{5757}\u{540d}\u{79f0} '"@
                    + name@
                    + "': \u{4e0d}\u{80fd}\u{4e3a}\u{7a7a}\u{ff0c}\u{4e0d}\u{80fd}\u{5305}\u{542b}\u{6362}\u{884c}\u{7b26}\u{ff0c}\u{957f}\u{5ea6}\u{4e0d}\u{80fd}\u{8d85}\u{8fc7}100\u{4e2a}\u{5b57}\u{7b26}"@
            } else if !(version@.len() > 0 && byte_len(version) <= 32 && control_free(version@)
                && spec_trim(version@).len() > 0) {
                r matches Err(e) && e@ == "\u{65e0}\u{6548}\u{7684}\u{7248}\u{672c}\u{5b57}\u{7b26}\u{4e32} '"@
                    + version@
                    + "': \u{4e0d}\u{80fd}\u{4e3a}\u{7a7a}\u{ff0c}\u{4e0d}\u{80fd}\u{5305}\u{542b}\u{6362}\u{884c}\u{7b26}\u{ff0c}\u{957f}\u{5ea6}\u{4e0d}\u{80fd}\u{8d85}\u{8fc7}32\u{4e2a}\u{5b57}\u{7b26}"@
            } else if !(version_code > 0) {
                r matches Err(e) && e@ == "\u{65e0}\u{6548}\u{7684}\u{7248}\u{672c}\u{4ee3}\u{7801} '"@
                    + crate::num::dec_i64(version_code as int)
                    + "': \u{5fc5}\u{987b}\u{662f}\u{6b63}\u{6574}\u{6570}"@
            } else if !(author@.len() > 0 && byte_len(author) <= 100 && line_break_free(author@)
                && spec_trim(author@).len() > 0) {
                r matches Err(e) && e@ == "\u{65e0}\u{6548}\u{7684}\u{4f5c}\u{8005}\u{540d}\u{79f0} '"@
                    + author@
                    + "': \u{4e0d}\u{80fd}\u{4e3a}\u{7a7a}\u{ff0c}\u{4e0d}\u{80fd}\u{5305}\u{542b}\u{6362}\u{884c}\u{7b26}\u{ff0c}\u{957f}\u{5ea6}\u{4e0d}\u{80fd}\u{8d85}\u{8fc7}100\u{4e2a}\u{5b57}\u{7b26}"@
            } else if !(byte_len(description) <= 500 && line_break_free(description@)) {
                r matches Err(e) && e@ == "\u{65e0}\u{6548}\u{7684}\u{6a21}\u{5757}\u{63cf}\u{8ff0}: \u{4e0d}\u{80fd}\u{5305}\u{542b}\u{6362}\u{884c}\u{7b26}\u{ff0c}\u{957f}\u{5ea6}\u{4e0d}\u{80fd}\u{8d85}\u{8fc7}500\u{4e2a}\u{5b57}\u{7b26}"@
            } else {
                r is Ok
            }
        }),
{
    if !is_valid_module_id(id) {
        let mut e = "\u{65e0}\u{6548}\u{7684}\u{6a21}\u{5757}ID '".to_owned();
        e.append(id);
        e.append(
            "': \u{5fc5}\u{987b}\u{4ee5}\u{5b57}\u{6bcd}\u{5f00}\u{5934}\u{ff0c}\u{53ea}\u{80fd}\u{5305}\u{542b}\u{5b57}\u{6bcd}\u{3001}\u{6570}\u{5b57}\u{3001}\u{70b9}(.)\u{3001}\u{4e0b}\u{5212}\u{7ebf}(_)\u{3001}\u{8fde}\u{5b57}\u{7b26}(-)",
        );
        return Err(e);
    }
    if !is_valid_module_name(name) {
        let mut e = "\u{65e0}\u{6548}\u{7684}\u{6a21}\u{5757}\u{540d}\u{79f0} '".to_owned();
        e.append(name);
        e.append(
            "': \u{4e0d}\u{80fd}\u{4e3a}\u{7a7a}\u{ff0c}\u{4e0d}\u{80fd}\u{5305}\u{542b}\u{6362}\u{884c}\u{7b26}\u{ff0c}\u{957f}\u{5ea6}\u{4e0d}\u{80fd}\u{8d85}\u{8fc7}100\u{4e2a}\u{5b57}\u{7b26}",
        );
        return Err(e);
    }
    if !is_valid_version_string(version) {
        let mut e = "\u{65e0}\u{6548}\u{7684}\u{7248}\u{672c}\u{5b57}\u{7b26}\u{4e32} '".to_owned();
        e.append(version);
        e.append(
            "': \u{4e0d}\u{80fd}\u{4e3a}\u{7a7a}\u{ff0c}\u{4e0d}\u{80fd}\u{5305}\u{542b}\u{6362}\u{884c}\u{7b26}\u{ff0c}\u{957f}\u{5ea6}\u{4e0d}\u{80fd}\u{8d85}\u{8fc7}32\u{4e2a}\u{5b57}\u{7b26}",
        );
        return Err(e);
    }
    if !is_valid_version_code(version_code) {
        let mut e = "\u{65e0}\u{6548}\u{7684}\u{7248}\u{672c}\u{4ee3}\u{7801} '".to_owned();
        crate::num::push_dec_i64(&mut e, version_code as i64);
        e.append("': \u{5fc5}\u{987b}\u{662f}\u{6b63}\u{6574}\u{6570}");
        return Err(e);
    }
    if !is_valid_author_name(author) {
        let mut e = "\u{65e0}\u{6548}\u{7684}\u{4f5c}\u{8005}\u{540d}\u{79f0} '".to_owned();
        e.append(author);
        e.append(
            "': \u{4e0d}\u{80fd}\u{4e3a}\u{7a7a}\u{ff0c}\u{4e0d}\u{80fd}\u{5305}\u{542b}\u{6362}\u{884c}\u{7b26}\u{ff0c}\u{957f}\u{5ea6}\u{4e0d}\u{80fd}\u{8d85}\u{8fc7}100\u{4e2a}\u{5b57}\u{7b26}",
        );
        return Err(e);
    }
    if !is_valid_module_description(description) {
        return Err(
            "\u{65e0}\u{6548}\u{7684}\u{6a21}\u{5757}\u{63cf}\u{8ff0}: \u{4e0d}\u{80fd}\u{5305}\u{542b}\u{6362}\u{884c}\u{7b26}\u{ff0c}\u{957f}\u{5ea6}\u{4e0d}\u{80fd}\u{8d85}\u{8fc7}500\u{4e2a}\u{5b57}\u{7b26}".to_owned(),
        );
    }
    Ok(())
}

/// A filename is safe exactly when it is a strict module identifier.
pub fn is_safe_filename(filename: &str) -> (r: bool)
    ensures
        r == strict_module_id_ok(filename@, byte_len(filename)),
{
    is_valid_module_id(filename)
}

} // verus!
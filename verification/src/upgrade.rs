//! The in-place manifest version upgrade: a line-by-line rewrite that
//! substitutes the first `version = ` line with an incremented semantic
//! version and the first `versionCode = ` line with a fresh code, and
//! passes every other line through unchanged.

use vstd::prelude::*;

use crate::num::dec_i64;
use crate::num::dec_of;
use crate::num::push_dec_i64;
use crate::num::push_dec_u64;
use crate::num::parse_u32_range;
use crate::num::spec_parse_u32;
use crate::text::doc_lines;
use crate::text::has_prefix;
use crate::text::push_char;
use crate::text::range_has_prefix;
use crate::text::spec_trim;
use crate::text::split_on;
use crate::text::split_ranges;
use crate::text::str_chars;
use crate::text::string_of_range;
use crate::text::strip_quotes;
use crate::text::strip_quotes_range;
use crate::text::trim_range;
use crate::validate::version_body;
use crate::validate::version_parts;

verus! {

/// Why a version string cannot be upgraded, if it cannot: fewer than three
/// components, or a component that is not a number.
pub open spec fn upgrade_err_msg(s: Seq<char>) -> Option<Seq<char>> {
    let parts = version_parts(s);
    if parts.len() < 3 {
        Some("Invalid version format, expected X.Y.Z"@)
    } else if spec_parse_u32(parts[0]) is None {
        Some("Invalid major version number"@)
    } else if spec_parse_u32(parts[1]) is None {
        Some("Invalid minor version number"@)
    } else if spec_parse_u32(parts[2]) is None {
        Some("Invalid patch version number"@)
    } else {
        None
    }
}

/// The upgraded version: major and minor kept, the patch replaced by the
/// checkout's commit count when one is known and incremented by one
/// otherwise, the `v` prefix kept exactly when the input had it.
pub open spec fn spec_upgraded_version(s: Seq<char>, git: int) -> Seq<char> {
    let parts = version_parts(s);
    let maj = spec_parse_u32(parts[0])->Some_0 as int;
    let min = spec_parse_u32(parts[1])->Some_0 as int;
    let patch0 = spec_parse_u32(parts[2])->Some_0 as int;
    let patch = if git > 0 {
        git
    } else {
        patch0 + 1
    };
    (if s.len() > 0 && s[0] == 'v' {
        seq!['v']
    } else {
        Seq::<char>::empty()
    }) + dec_of(maj as nat) + seq!['.'] + dec_of(min as nat) + seq!['.'] + dec_of(patch as nat)
}

/// Upgrades the version in `v[lo..hi]`.
fn upgrade_version_range(v: &Vec<char>, lo: usize, hi: usize, git_commits: u32) -> (r: Result<
    String,
    String,
>)
    requires
        lo <= hi <= v@.len(),
    ensures
        ({
            let s = v@.subrange(lo as int, hi as int);
            match upgrade_err_msg(s) {
                Some(m) => r matches Err(e) && e@ == m,
                None => r matches Ok(out) && out@ == spec_upgraded_version(
                    s,
                    git_commits as int,
                ),
            }
        }),
{
    let ghost s = v@.subrange(lo as int, hi as int);
    let has_v = lo < hi && v[lo] == 'v';
    let start: usize = if has_v {
        lo + 1
    } else {
        lo
    };
    proof {
        assert(version_body(s) =~= v@.subrange(start as int, hi as int));
    }
    let ranges = split_ranges(v, start, hi, '.');
    proof {
        assert(ranges@.len() == version_parts(s).len());
    }
    if ranges.len() < 3 {
        return Err("Invalid version format, expected X.Y.Z".to_owned());
    }
    let (a0, b0) = ranges[0];
    let maj = match parse_u32_range(v, a0, b0) {
        Some(x) => x,
        None => {
            return Err("Invalid major version number".to_owned());
        },
    };
    let (a1, b1) = ranges[1];
    let min = match parse_u32_range(v, a1, b1) {
        Some(x) => x,
        None => {
            return Err("Invalid minor version number".to_owned());
        },
    };
    let (a2, b2) = ranges[2];
    let patch0 = match parse_u32_range(v, a2, b2) {
        Some(x) => x,
        None => {
            return Err("Invalid patch version number".to_owned());
        },
    };
    let patch: u64 = if git_commits > 0 {
        git_commits as u64
    } else {
        patch0 as u64 + 1
    };
    let mut out = String::new();
    if has_v {
        push_char(&mut out, 'v');
    }
    push_dec_u64(&mut out, maj as u64);
    push_char(&mut out, '.');
    push_dec_u64(&mut out, min as u64);
    push_char(&mut out, '.');
    push_dec_u64(&mut out, patch);
    proof {
        assert(out@ =~= spec_upgraded_version(s, git_commits as int));
    }
    Ok(out)
}

/// Upgrades a semantic version string: at least three numeric components,
/// the patch component replaced by the checkout's commit count when one is
/// known (pass zero for none) and incremented by one otherwise.
pub fn upgrade_version_string(current: &str, git_commits: u32) -> (r: Result<String, String>)
    ensures
        match upgrade_err_msg(current@) {
            Some(m) => r matches Err(e) && e@ == m,
            None => r matches Ok(out) && out@ == spec_upgraded_version(
                current@,
                git_commits as int,
            ),
        },
{
    let v = str_chars(current);
    proof {
        assert(v@.subrange(0, v@.len() as int) =~= current@);
    }
    upgrade_version_range(&v, 0, v.len(), git_commits)
}

/// The rewrite state after some prefix of the document: the text emitted
/// so far and whether each of the two keys has been substituted.
#[verifier::ext_equal]
pub ghost struct UpState {
    pub out: Seq<char>,
    pub ver_done: bool,
    pub code_done: bool,
}

pub open spec fn init_up_state() -> UpState {
    UpState { out: Seq::empty(), ver_done: false, code_done: false }
}

/// How one line is rewritten: the first `version = ` line has its value
/// upgraded (its failure aborts the rewrite), the first `versionCode = `
/// line takes the fresh code, and every other line passes through verbatim.
pub open spec fn upgrade_line(st: UpState, raw: Seq<char>, code: int, git: int) -> Result<
    UpState,
    Seq<char>,
> {
    let line = spec_trim(raw);
    if has_prefix(line, "version = "@) && !st.ver_done {
        let cur = spec_trim(strip_quotes(line.skip(10)));
        match upgrade_err_msg(cur) {
            Some(m) => Err(m),
            None => Ok(
                UpState {
                    out: st.out + "version = \""@ + spec_upgraded_version(cur, git) + "\"\n"@,
                    ver_done: true,
                    ..st
                },
            ),
        }
    } else if has_prefix(line, "versionCode = "@) && !st.code_done {
        Ok(UpState { out: st.out + "versionCode = "@ + dec_i64(code) + "\n"@, code_done: true, ..st })
    } else {
        Ok(UpState { out: st.out + raw + "\n"@, ..st })
    }
}

/// The rewrite folded over the document's lines, aborting on the first
/// failing version value.
pub open spec fn upgrade_lines(st: UpState, lines: Seq<Seq<char>>, code: int, git: int) -> Result<
    UpState,
    Seq<char>,
>
    decreases lines.len(),
{
    if lines.len() == 0 {
        Ok(st)
    } else {
        match upgrade_line(st, lines[0], code, git) {
            Err(m) => Err(m),
            Ok(st2) => upgrade_lines(st2, lines.drop_first(), code, git),
        }
    }
}

proof fn lemma_upgrade_lines_snoc(st: UpState, lines: Seq<Seq<char>>, x: Seq<char>, code: int, git: int)
    ensures
        upgrade_lines(st, lines.push(x), code, git) == match upgrade_lines(st, lines, code, git) {
            Err(m) => Err(m),
            Ok(st2) => upgrade_line(st2, x, code, git),
        },
    decreases lines.len(),
{
    if lines.len() == 0 {
        assert(lines.push(x)[0] == x);
        assert(lines.push(x).drop_first() =~= Seq::<Seq<char>>::empty());
        assert(upgrade_lines(st, lines, code, git) == Ok::<UpState, Seq<char>>(st));
        match upgrade_line(st, x, code, git) {
            Err(m) => {
                assert(upgrade_lines(st, lines.push(x), code, git) == Err::<UpState, Seq<char>>(
                    m,
                ));
            },
            Ok(st2) => {
                assert(upgrade_lines(st, lines.push(x), code, git) == upgrade_lines(
                    st2,
                    lines.push(x).drop_first(),
                    code,
                    git,
                ));
                assert(upgrade_lines(st2, lines.push(x).drop_first(), code, git) == Ok::<
                    UpState,
                    Seq<char>,
                >(st2));
            },
        }
    } else {
        assert(lines.push(x)[0] == lines[0]);
        assert(lines.push(x).drop_first() =~= lines.drop_first().push(x));
        match upgrade_line(st, lines[0], code, git) {
            Err(m) => {
                assert(upgrade_lines(st, lines.push(x), code, git) == Err::<UpState, Seq<char>>(
                    m,
                ));
                assert(upgrade_lines(st, lines, code, git) == Err::<UpState, Seq<char>>(m));
            },
            Ok(st2) => {
                lemma_upgrade_lines_snoc(st2, lines.drop_first(), x, code, git);
                assert(upgrade_lines(st, lines.push(x), code, git) == upgrade_lines(
                    st2,
                    lines.drop_first().push(x),
                    code,
                    git,
                ));
                assert(upgrade_lines(st, lines, code, git) == upgrade_lines(
                    st2,
                    lines.drop_first(),
                    code,
                    git,
                ));
            },
        }
    }
}

/// The whole rewritten document, or the failure of its first version line.
pub open spec fn spec_upgrade_manifest(text: Seq<char>, code: int, git: int) -> Result<
    Seq<char>,
    Seq<char>,
> {
    match upgrade_lines(init_up_state(), doc_lines(text), code, git) {
        Ok(st) => Ok(st.out),
        Err(m) => Err(m),
    }
}

/// Rewrites a manifest document for a version upgrade: the first
/// `version = ` line gets the upgraded version, the first `versionCode = `
/// line gets `new_code`, and every other line passes through unchanged.
/// `git_commits` is the checkout's commit count, zero when none is known.
/// Fails exactly when the first version line's value cannot be upgraded,
/// before anything is written back.
pub fn upgrade_manifest_content(content: &str, new_code: i64, git_commits: u32) -> (r: Result<
    String,
    String,
>)
    ensures
        match spec_upgrade_manifest(content@, new_code as int, git_commits as int) {
            Ok(o) => r matches Ok(s) && s@ == o,
            Err(m) => r matches Err(e) && e@ == m,
        },
{
    let v = str_chars(content);
    let ghost lines = doc_lines(content@);
    let ranges = split_ranges(&v, 0, v.len(), '\n');
    proof {
        assert(v@.subrange(0, v@.len() as int) =~= content@);
    }
    let line_count: usize = if v.len() == 0 {
        0
    } else if v[v.len() - 1] == '\n' {
        ranges.len() - 1
    } else {
        ranges.len()
    };
    proof {
        crate::text::lemma_split_on_len(content@, '\n');
        if v@.len() == 0 {
            assert(lines =~= Seq::<Seq<char>>::empty());
        } else if v@[v@.len() - 1] == '\n' {
            assert(lines =~= split_on(content@, '\n').drop_last());
        } else {
            assert(lines =~= split_on(content@, '\n'));
        }
        assert(lines.len() == line_count);
    }
    let mut out = String::new();
    let mut ver_done = false;
    let mut code_done = false;
    let mut i: usize = 0;
    proof {
        assert(lines.take(0) =~= Seq::<Seq<char>>::empty());
    }
    while i < line_count
        invariant
            0 <= i <= line_count,
            v@ == content@,
            lines == doc_lines(content@),
            lines.len() == line_count,
            line_count <= ranges@.len(),
            forall|k: int|
                0 <= k < line_count ==> {
                    &&& #[trigger] ranges@[k].0 <= ranges@[k].1 <= v@.len()
                    &&& v@.subrange(ranges@[k].0 as int, ranges@[k].1 as int) == lines[k]
                },
            upgrade_lines(init_up_state(), lines.take(i as int), new_code as int, git_commits as int)
                == Ok::<UpState, Seq<char>>(
                UpState { out: out@, ver_done: ver_done, code_done: code_done },
            ),
        decreases line_count - i,
    {
        let ghost st0 = UpState { out: out@, ver_done: ver_done, code_done: code_done };
        let (rlo, rhi) = ranges[i];
        let ghost raw = lines[i as int];
        let (a, b) = trim_range(&v, rlo, rhi);
        let ghost line = spec_trim(raw);
        proof {
            assert(v@.subrange(a as int, b as int) == line);
        }
        let is_ver = range_has_prefix(&v, a, b, "version = ");
        let is_code = range_has_prefix(&v, a, b, "versionCode = ");
        proof {
            reveal_strlit("version = ");
            reveal_strlit("versionCode = ");
            assert("version = "@.len() == 10);
            assert("versionCode = "@.len() == 14);
        }
        if is_ver && !ver_done {
            let (qa, qb) = strip_quotes_range(&v, a + 10, b);
            let (ta, tb) = trim_range(&v, qa, qb);
            proof {
                assert(line.skip(10) =~= v@.subrange(a as int + 10, b as int));
                assert(v@.subrange(ta as int, tb as int) == spec_trim(
                    strip_quotes(line.skip(10)),
                ));
            }
            match upgrade_version_range(&v, ta, tb, git_commits) {
                Err(e) => {
                    proof {
                        let m = upgrade_err_msg(spec_trim(strip_quotes(line.skip(10))))->Some_0;
                        lemma_upgrade_lines_take_err(
                            lines,
                            i as int,
                            st0,
                            m,
                            new_code as int,
                            git_commits as int,
                        );
                    }
                    return Err(e);
                },
                Ok(nv) => {
                    out.append("version = \"");
                    out.append(nv.as_str());
                    out.append("\"\n");
                    ver_done = true;
                    proof {
                        assert(out@ =~= st0.out + "version = \""@ + spec_upgraded_version(
                            spec_trim(strip_quotes(line.skip(10))),
                            git_commits as int,
                        ) + "\"\n"@);
                        assert(upgrade_line(st0, raw, new_code as int, git_commits as int)
                            == Ok::<UpState, Seq<char>>(
                            UpState { out: out@, ver_done: true, code_done: code_done },
                        ));
                        assert(lines.take(i as int).push(raw) =~= lines.take(i as int + 1));
                        lemma_upgrade_lines_snoc(
                            init_up_state(),
                            lines.take(i as int),
                            raw,
                            new_code as int,
                            git_commits as int,
                        );
                    }
                },
            }
        } else if is_code && !code_done {
            out.append("versionCode = ");
            push_dec_i64(&mut out, new_code);
            out.append("\n");
            code_done = true;
            proof {
                assert(out@ =~= st0.out + "versionCode = "@ + dec_i64(new_code as int) + "\n"@);
                assert(upgrade_line(st0, raw, new_code as int, git_commits as int) == Ok::<
                    UpState,
                    Seq<char>,
                >(UpState { out: out@, ver_done: ver_done, code_done: true }));
                assert(lines.take(i as int).push(raw) =~= lines.take(i as int + 1));
                lemma_upgrade_lines_snoc(
                    init_up_state(),
                    lines.take(i as int),
                    raw,
                    new_code as int,
                    git_commits as int,
                );
            }
        } else {
            let piece = string_of_range(&v, rlo, rhi);
            out.append(piece.as_str());
            out.append("\n");
            proof {
                assert(out@ =~= st0.out + raw + "\n"@);
                assert(upgrade_line(st0, raw, new_code as int, git_commits as int) == Ok::<
                    UpState,
                    Seq<char>,
                >(UpState { out: out@, ver_done: ver_done, code_done: code_done }));
                assert(lines.take(i as int).push(raw) =~= lines.take(i as int + 1));
                lemma_upgrade_lines_snoc(
                    init_up_state(),
                    lines.take(i as int),
                    raw,
                    new_code as int,
                    git_commits as int,
                );
            }
        }
        i = i + 1;
    }
    proof {
        assert(lines.take(line_count as int) =~= lines);
    }
    Ok(out)
}

/// A failing line fails the whole fold, whatever follows it.
proof fn lemma_upgrade_lines_take_err(
    lines: Seq<Seq<char>>,
    i: int,
    st: UpState,
    m: Seq<char>,
    code: int,
    git: int,
)
    requires
        0 <= i < lines.len(),
        upgrade_lines(init_up_state(), lines.take(i), code, git) == Ok::<UpState, Seq<char>>(st),
        upgrade_line(st, lines[i], code, git) == Err::<UpState, Seq<char>>(m),
    ensures
        upgrade_lines(init_up_state(), lines, code, git) == Err::<UpState, Seq<char>>(m),
    decreases lines.len() - i,
{
    lemma_upgrade_lines_split(init_up_state(), lines, i, code, git);
}

/// Folding a whole line sequence first folds its prefix.
proof fn lemma_upgrade_lines_split(st: UpState, lines: Seq<Seq<char>>, i: int, code: int, git: int)
    requires
        0 <= i <= lines.len(),
    ensures
        upgrade_lines(st, lines, code, git) == match upgrade_lines(st, lines.take(i), code, git) {
            Err(m) => Err(m),
            Ok(st2) => upgrade_lines(st2, lines.skip(i), code, git),
        },
    decreases i,
{
    if i == 0 {
        assert(lines.take(0) =~= Seq::<Seq<char>>::empty());
        assert(lines.skip(0) =~= lines);
    } else {
        lemma_upgrade_lines_split(st, lines, i - 1, code, git);
        assert(lines.take(i - 1).push(lines[i - 1]) =~= lines.take(i));
        lemma_upgrade_lines_snoc(st, lines.take(i - 1), lines[i - 1], code, git);
        match upgrade_lines(st, lines.take(i - 1), code, git) {
            Err(_) => {},
            Ok(st2) => {
                match upgrade_line(st2, lines[i - 1], code, git) {
                    Err(_) => {},
                    Ok(st3) => {
                        assert(lines.skip(i - 1)[0] == lines[i - 1]);
                        assert(lines.skip(i - 1).drop_first() =~= lines.skip(i));
                        assert(upgrade_lines(st2, lines.skip(i - 1), code, git) == upgrade_lines(
                            st3,
                            lines.skip(i),
                            code,
                            git,
                        ));
                    },
                }
            },
        }
    }
}

} // verus!
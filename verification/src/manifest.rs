//! The manifest parser: a line-oriented scanner that turns the semi-structured
//! `module.prop` document into a typed configuration.
//!
//! The grammar is permissive by design: blank lines, comments, unrecognized
//! keys, unknown sections and malformed lines are skipped, never reported.
//! The whole meaning of a document is given by the spec-level scanner
//! [`scan_lines`] folded over the document's lines, and `from_content` is
//! proved to return exactly that.

use vstd::prelude::*;

use crate::num::spec_parse_i64;
use crate::num::parse_i64_range;
use crate::text::find_ch;
use crate::text::find_in_range;
use crate::text::has_prefix;
use crate::text::range_eq_str;
use crate::text::range_has_prefix;
use crate::text::spec_trim;
use crate::text::split_on;
use crate::text::split_ranges;
use crate::text::str_chars;
use crate::text::string_eq_str;
use crate::text::string_of_range;
use crate::text::strip_pair;
use crate::text::strip_pair_range;
use crate::text::strip_quotes;
use crate::text::strip_quotes_range;
use crate::text::trim_back;
use crate::text::trim_front;
use crate::text::trim_range;

verus! {

/// One named action inside a build phase.
#[derive(Debug, Clone)]
pub struct BuildStep {
    pub name: String,
    pub command: String,
}

#[verifier::ext_equal]
pub ghost struct StepModel {
    pub name: Seq<char>,
    pub command: Seq<char>,
}

impl View for BuildStep {
    type V = StepModel;

    open spec fn view(&self) -> StepModel {
        StepModel { name: self.name@, command: self.command@ }
    }
}

/// The build pipeline description: three ordered phases, the system
/// requirements list and the build backend.
#[derive(Debug, Clone)]
pub struct BuildConfig {
    pub prebuild_steps: Vec<BuildStep>,
    pub build_steps: Vec<BuildStep>,
    pub postbuild_steps: Vec<BuildStep>,
    pub system_requires: Vec<String>,
    pub build_backend: String,
}

#[verifier::ext_equal]
pub ghost struct BuildModel {
    pub prebuild: Seq<StepModel>,
    pub build: Seq<StepModel>,
    pub postbuild: Seq<StepModel>,
    pub requires: Seq<Seq<char>>,
    pub backend: Seq<char>,
}

pub open spec fn steps_view(v: Seq<BuildStep>) -> Seq<StepModel> {
    v.map_values(|s: BuildStep| s@)
}

impl View for BuildConfig {
    type V = BuildModel;

    open spec fn view(&self) -> BuildModel {
        BuildModel {
            prebuild: steps_view(self.prebuild_steps@),
            build: steps_view(self.build_steps@),
            postbuild: steps_view(self.postbuild_steps@),
            requires: self.system_requires.deep_view(),
            backend: self.build_backend@,
        }
    }
}

/// The parsed manifest: every scalar field falls back to a documented
/// default when the document does not set it.
#[derive(Debug, Clone)]
pub struct ApmmConfig {
    pub id: String,
    pub name: String,
    pub description: String,
    pub version: String,
    pub version_code: i64,
    pub author: String,
    pub license: String,
    pub build_config: BuildConfig,
}

#[verifier::ext_equal]
pub ghost struct ConfigModel {
    pub id: Seq<char>,
    pub name: Seq<char>,
    pub description: Seq<char>,
    pub version: Seq<char>,
    pub version_code: int,
    pub author: Seq<char>,
    pub license: Seq<char>,
    pub build: BuildModel,
}

impl View for ApmmConfig {
    type V = ConfigModel;

    open spec fn view(&self) -> ConfigModel {
        ConfigModel {
            id: self.id@,
            name: self.name@,
            description: self.description@,
            version: self.version@,
            version_code: self.version_code as int,
            author: self.author@,
            license: self.license@,
            build: self.build_config@,
        }
    }
}

/// The scanner state after some prefix of the document: the open sections,
/// every scalar value seen so far, and the accumulated build pipeline.
#[verifier::ext_equal]
pub ghost struct ScanState {
    pub section: Seq<char>,
    pub array_section: Seq<char>,
    pub id: Option<Seq<char>>,
    pub name: Option<Seq<char>>,
    pub description: Option<Seq<char>>,
    pub version: Option<Seq<char>>,
    pub version_code: Option<Seq<char>>,
    pub author: Option<Seq<char>>,
    pub license: Option<Seq<char>>,
    pub prebuild: Seq<StepModel>,
    pub build: Seq<StepModel>,
    pub postbuild: Seq<StepModel>,
    pub requires: Seq<Seq<char>>,
    pub backend: Seq<char>,
}

pub open spec fn init_scan_state() -> ScanState {
    ScanState {
        section: Seq::empty(),
        array_section: Seq::empty(),
        id: None,
        name: None,
        description: None,
        version: None,
        version_code: None,
        author: None,
        license: None,
        prebuild: Seq::empty(),
        build: Seq::empty(),
        postbuild: Seq::empty(),
        requires: Seq::empty(),
        backend: "apmm"@,
    }
}

/// A trimmed line that opens an array-of-tables section: `[[name]]`.
pub open spec fn is_array_header(line: Seq<char>) -> bool {
    line.len() >= 4 && line[0] == '[' && line[1] == '[' && line[line.len() - 1] == ']'
        && line[line.len() - 2] == ']'
}

/// A trimmed line that opens a scalar section: `[name]`.
pub open spec fn is_scalar_header(line: Seq<char>) -> bool {
    line.len() >= 2 && line[0] == '[' && line[line.len() - 1] == ']'
}

/// The elements of a bracketed requirements list: comma-separated, each
/// trimmed and unquoted.
pub open spec fn req_items(inner: Seq<char>) -> Seq<Seq<char>> {
    split_on(inner, ',').map_values(|e: Seq<char>| strip_quotes(spec_trim(e)))
}

/// How one `key = value` line, already split and cleaned, changes the state.
pub open spec fn scan_kv(st: ScanState, key: Seq<char>, val: Seq<char>) -> ScanState {
    if st.array_section.len() > 0 {
        let step = StepModel { name: key, command: val };
        if st.array_section == "build.prebuild"@ {
            ScanState { prebuild: st.prebuild.push(step), ..st }
        } else if st.array_section == "build.build"@ {
            ScanState { build: st.build.push(step), ..st }
        } else if st.array_section == "build.postbuild"@ {
            ScanState { postbuild: st.postbuild.push(step), ..st }
        } else {
            st
        }
    } else if st.section == "build.system"@ {
        if key == "requires"@ {
            if val.len() >= 2 && val[0] == '[' && val[val.len() - 1] == ']' {
                ScanState { requires: req_items(val.subrange(1, val.len() - 1)), ..st }
            } else {
                st
            }
        } else if key == "build-backend"@ {
            ScanState { backend: val, ..st }
        } else {
            st
        }
    } else if st.section.len() == 0 {
        if key == "id"@ {
            ScanState { id: Some(val), ..st }
        } else if key == "name"@ {
            ScanState { name: Some(val), ..st }
        } else if key == "description"@ {
            ScanState { description: Some(val), ..st }
        } else if key == "version"@ {
            ScanState { version: Some(val), ..st }
        } else if key == "versionCode"@ {
            ScanState { version_code: Some(val), ..st }
        } else if key == "author"@ {
            ScanState { author: Some(val), ..st }
        } else if key == "license"@ {
            ScanState { license: Some(val), ..st }
        } else {
            st
        }
    } else {
        st
    }
}

/// How one raw document line changes the state.
pub open spec fn scan_line(st: ScanState, raw: Seq<char>) -> ScanState {
    let line = spec_trim(raw);
    if line.len() == 0 || line[0] == '#' {
        st
    } else if is_array_header(line) {
        ScanState {
            array_section: line.subrange(2, line.len() - 2),
            section: Seq::empty(),
            ..st
        }
    } else if is_scalar_header(line) {
        ScanState { section: line.subrange(1, line.len() - 1), array_section: Seq::empty(), ..st }
    } else {
        match find_ch(line, '=') {
            None => st,
            Some(i) => scan_kv(
                st,
                spec_trim(line.take(i)),
                strip_pair(spec_trim(line.skip(i + 1))),
            ),
        }
    }
}

/// The scanner folded over a sequence of lines, in document order.
pub open spec fn scan_lines(st: ScanState, lines: Seq<Seq<char>>) -> ScanState
    decreases lines.len(),
{
    if lines.len() == 0 {
        st
    } else {
        scan_lines(scan_line(st, lines[0]), lines.drop_first())
    }
}

pub proof fn lemma_scan_lines_snoc(st: ScanState, lines: Seq<Seq<char>>, x: Seq<char>)
    ensures
        scan_lines(st, lines.push(x)) == scan_line(scan_lines(st, lines), x),
    decreases lines.len(),
{
    if lines.len() == 0 {
        assert(lines.push(x)[0] == x);
        assert(lines.push(x).drop_first() =~= Seq::<Seq<char>>::empty());
        assert(scan_lines(st, lines) == st);
        assert(scan_lines(st, lines.push(x)) == scan_lines(
            scan_line(st, lines.push(x)[0]),
            lines.push(x).drop_first(),
        ));
        assert(scan_lines(scan_line(st, x), lines.push(x).drop_first()) == scan_line(st, x));
    } else {
        assert(lines.push(x)[0] == lines[0]);
        assert(lines.push(x).drop_first() =~= lines.drop_first().push(x));
        lemma_scan_lines_snoc(scan_line(st, lines[0]), lines.drop_first(), x);
        assert(scan_lines(st, lines.push(x)) == scan_lines(
            scan_line(st, lines[0]),
            lines.push(x).drop_first(),
        ));
        assert(scan_lines(st, lines.push(x)) == scan_line(
            scan_lines(scan_line(st, lines[0]), lines.drop_first()),
            x,
        ));
        assert(scan_lines(st, lines) == scan_lines(scan_line(st, lines[0]), lines.drop_first()));
    }
}

/// Scanning a concatenation scans the two parts in order.
pub proof fn lemma_scan_lines_concat(st: ScanState, a: Seq<Seq<char>>, b: Seq<Seq<char>>)
    ensures
        scan_lines(st, a + b) == scan_lines(scan_lines(st, a), b),
    decreases a.len(),
{
    if a.len() == 0 {
        assert(a + b =~= b);
    } else {
        assert((a + b)[0] == a[0]);
        assert((a + b).drop_first() =~= a.drop_first() + b);
        lemma_scan_lines_concat(scan_line(st, a[0]), a.drop_first(), b);
    }
}

pub open spec fn or_default(o: Option<Seq<char>>, d: Seq<char>) -> Seq<char> {
    match o {
        Some(s) => s,
        None => d,
    }
}

/// The configuration read off a final scanner state: documented defaults
/// fill every field the document did not set, and a `versionCode` value
/// that does not parse as an integer falls back to the default as well.
pub open spec fn finalize_scan(st: ScanState) -> ConfigModel {
    ConfigModel {
        id: or_default(st.id, "unknown"@),
        name: or_default(st.name, "Unknown"@),
        description: or_default(st.description, Seq::empty()),
        version: or_default(st.version, "0.1.0"@),
        version_code: match st.version_code {
            None => 1,
            Some(s) => match spec_parse_i64(s) {
                None => 1,
                Some(v) => v as int,
            },
        },
        author: or_default(st.author, "Unknown"@),
        license: or_default(st.license, "MIT"@),
        build: BuildModel {
            prebuild: st.prebuild,
            build: st.build,
            postbuild: st.postbuild,
            requires: st.requires,
            backend: st.backend,
        },
    }
}

/// The meaning of a whole manifest document.
pub open spec fn parse_manifest(text: Seq<char>) -> ConfigModel {
    finalize_scan(scan_lines(init_scan_state(), split_on(text, '\n')))
}

pub open spec fn opt_view(o: Option<String>) -> Option<Seq<char>> {
    match o {
        Some(s) => Some(s@),
        None => None,
    }
}

/// The scanner's executable state, an exact image of [`ScanState`].
struct ScanExec {
    section: String,
    array_section: String,
    id: Option<String>,
    name: Option<String>,
    description: Option<String>,
    version: Option<String>,
    version_code: Option<String>,
    author: Option<String>,
    license: Option<String>,
    prebuild: Vec<BuildStep>,
    build: Vec<BuildStep>,
    postbuild: Vec<BuildStep>,
    requires: Vec<String>,
    backend: String,
}

impl View for ScanExec {
    type V = ScanState;

    closed spec fn view(&self) -> ScanState {
        ScanState {
            section: self.section@,
            array_section: self.array_section@,
            id: opt_view(self.id),
            name: opt_view(self.name),
            description: opt_view(self.description),
            version: opt_view(self.version),
            version_code: opt_view(self.version_code),
            author: opt_view(self.author),
            license: opt_view(self.license),
            prebuild: steps_view(self.prebuild@),
            build: steps_view(self.build@),
            postbuild: steps_view(self.postbuild@),
            requires: self.requires.deep_view(),
            backend: self.backend@,
        }
    }
}

fn new_scan_exec() -> (st: ScanExec)
    ensures
        st@ == init_scan_state(),
{
    let st = ScanExec {
        section: String::new(),
        array_section: String::new(),
        id: None,
        name: None,
        description: None,
        version: None,
        version_code: None,
        author: None,
        license: None,
        prebuild: Vec::new(),
        build: Vec::new(),
        postbuild: Vec::new(),
        requires: Vec::new(),
        backend: "apmm".to_owned(),
    };
    proof {
        assert(steps_view(Seq::<BuildStep>::empty()) =~= Seq::<StepModel>::empty());
        assert(st.requires.deep_view() =~= Seq::<Seq<char>>::empty());
        assert(st@ =~~= init_scan_state());
    }
    st
}

/// The elements of a bracketed requirements list in `v[lo..hi]`.
fn parse_req_items_exec(v: &Vec<char>, lo: usize, hi: usize) -> (items: Vec<String>)
    requires
        lo <= hi <= v@.len(),
    ensures
        items.deep_view() == req_items(v@.subrange(lo as int, hi as int)),
{
    let ghost segs = split_on(v@.subrange(lo as int, hi as int), ',');
    let ranges = split_ranges(v, lo, hi, ',');
    let mut items: Vec<String> = Vec::new();
    let mut i: usize = 0;
    while i < ranges.len()
        invariant
            0 <= i <= ranges.len(),
            lo <= hi <= v@.len(),
            segs == split_on(v@.subrange(lo as int, hi as int), ','),
            ranges@.len() == segs.len(),
            forall|k: int|
                0 <= k < ranges@.len() ==> {
                    &&& lo <= #[trigger] ranges@[k].0 <= ranges@[k].1 <= hi
                    &&& v@.subrange(ranges@[k].0 as int, ranges@[k].1 as int) == segs[k]
                },
            items@.len() == i,
            forall|k: int|
                0 <= k < i ==> (#[trigger] items@[k])@ == strip_quotes(spec_trim(segs[k])),
        decreases ranges.len() - i,
    {
        let (rlo, rhi) = ranges[i];
        let (ta, tb) = trim_range(v, rlo, rhi);
        let (qa, qb) = strip_quotes_range(v, ta, tb);
        let s = string_of_range(v, qa, qb);
        proof {
            assert(s@ == strip_quotes(spec_trim(segs[i as int])));
        }
        items.push(s);
        i = i + 1;
    }
    proof {
        assert(forall|k: int|
            0 <= k < items@.len() ==> #[trigger] items.deep_view()[k] == items@[k]@);
        assert(items.deep_view() =~= req_items(v@.subrange(lo as int, hi as int)));
    }
    items
}

/// Applies one already-split `key = value` line to the state.
#[verifier::rlimit(30)]
fn scan_kv_exec(st: &mut ScanExec, v: &Vec<char>, klo: usize, khi: usize, vlo: usize, vhi: usize)
    requires
        klo <= khi <= v@.len(),
        vlo <= vhi <= v@.len(),
    ensures
        final(st)@ == scan_kv(
            old(st)@,
            v@.subrange(klo as int, khi as int),
            v@.subrange(vlo as int, vhi as int),
        ),
{
    let ghost key = v@.subrange(klo as int, khi as int);
    let ghost val = v@.subrange(vlo as int, vhi as int);
    let ghost st0 = st@;
    if !st.array_section.as_str().is_empty() {
        let ghost step = StepModel { name: key, command: val };
        if string_eq_str(&st.array_section, "build.prebuild") {
            let ghost pre0 = st.prebuild@;
            st.prebuild.push(
                BuildStep { name: string_of_range(v, klo, khi), command: string_of_range(v, vlo, vhi) },
            );
            proof {
                assert(steps_view(st.prebuild@) =~= steps_view(pre0).push(step));
                assert(st@ =~~= scan_kv(st0, key, val));
            }
        } else if string_eq_str(&st.array_section, "build.build") {
            let ghost b0 = st.build@;
            st.build.push(
                BuildStep { name: string_of_range(v, klo, khi), command: string_of_range(v, vlo, vhi) },
            );
            proof {
                assert(steps_view(st.build@) =~= steps_view(b0).push(step));
                assert(st@ =~~= scan_kv(st0, key, val));
            }
        } else if string_eq_str(&st.array_section, "build.postbuild") {
            let ghost p0 = st.postbuild@;
            st.postbuild.push(
                BuildStep { name: string_of_range(v, klo, khi), command: string_of_range(v, vlo, vhi) },
            );
            proof {
                assert(steps_view(st.postbuild@) =~= steps_view(p0).push(step));
                assert(st@ =~~= scan_kv(st0, key, val));
            }
        } else {
            proof {
                assert(st@ =~~= scan_kv(st0, key, val));
            }
        }
    } else if string_eq_str(&st.section, "build.system") {
        if range_eq_str(v, klo, khi, "requires") {
            if vhi - vlo >= 2 && v[vlo] == '[' && v[vhi - 1] == ']' {
                proof {
                    assert(val[0] == '[');
                    assert(val[val.len() - 1] == ']');
                    assert(val.subrange(1, val.len() - 1) =~= v@.subrange(
                        vlo as int + 1,
                        vhi as int - 1,
                    ));
                }
                let items = parse_req_items_exec(v, vlo + 1, vhi - 1);
                st.requires = items;
                proof {
                    assert(st@ =~~= scan_kv(st0, key, val));
                }
            } else {
                proof {
                    if val.len() >= 2 {
                        assert(val[0] == v@[vlo as int]);
                        assert(val[val.len() - 1] == v@[vhi as int - 1]);
                    }
                    assert(st@ =~~= scan_kv(st0, key, val));
                }
            }
        } else if range_eq_str(v, klo, khi, "build-backend") {
            st.backend = string_of_range(v, vlo, vhi);
            proof {
                assert(st@ =~~= scan_kv(st0, key, val));
            }
        } else {
            proof {
                assert(st@ =~~= scan_kv(st0, key, val));
            }
        }
    } else if st.section.as_str().is_empty() {
        if range_eq_str(v, klo, khi, "id") {
            st.id = Some(string_of_range(v, vlo, vhi));
            proof {
                assert(st@ =~~= scan_kv(st0, key, val));
            }
        } else if range_eq_str(v, klo, khi, "name") {
            st.name = Some(string_of_range(v, vlo, vhi));
            proof {
                assert(st@ =~~= scan_kv(st0, key, val));
            }
        } else if range_eq_str(v, klo, khi, "description") {
            st.description = Some(string_of_range(v, vlo, vhi));
            proof {
                assert(st@ =~~= scan_kv(st0, key, val));
            }
        } else if range_eq_str(v, klo, khi, "version") {
            st.version = Some(string_of_range(v, vlo, vhi));
            proof {
                assert(st@ =~~= scan_kv(st0, key, val));
            }
        } else if range_eq_str(v, klo, khi, "versionCode") {
            st.version_code = Some(string_of_range(v, vlo, vhi));
            proof {
                assert(st@ =~~= scan_kv(st0, key, val));
            }
        } else if range_eq_str(v, klo, khi, "author") {
            st.author = Some(string_of_range(v, vlo, vhi));
            proof {
                assert(st@ =~~= scan_kv(st0, key, val));
            }
        } else if range_eq_str(v, klo, khi, "license") {
            st.license = Some(string_of_range(v, vlo, vhi));
            proof {
                assert(st@ =~~= scan_kv(st0, key, val));
            }
        } else {
            proof {
                assert(st@ =~~= scan_kv(st0, key, val));
            }
        }
    } else {
        proof {
            assert(st@ =~~= scan_kv(st0, key, val));
        }
    }
}

/// Applies one raw document line to the state.
#[verifier::rlimit(30)]
fn scan_line_exec(st: &mut ScanExec, v: &Vec<char>, lo: usize, hi: usize)
    requires
        lo <= hi <= v@.len(),
    ensures
        final(st)@ == scan_line(old(st)@, v@.subrange(lo as int, hi as int)),
{
    let ghost raw = v@.subrange(lo as int, hi as int);
    let ghost st0 = st@;
    let (a, b) = trim_range(v, lo, hi);
    let ghost line = v@.subrange(a as int, b as int);
    proof {
        assert(line == spec_trim(raw));
        assert(forall|k: int| 0 <= k < line.len() ==> line[k] == v@[a + k]);
    }
    if a == b {
        return ;
    }
    if v[a] == '#' {
        proof {
            assert(line[0] == '#');
        }
        return ;
    }
    proof {
        assert(line[0] != '#');
    }
    if b - a >= 4 && v[a] == '[' && v[a + 1] == '[' && v[b - 1] == ']' && v[b - 2] == ']' {
        proof {
            assert(is_array_header(line));
        }
        st.array_section = string_of_range(v, a + 2, b - 2);
        st.section = String::new();
        proof {
            assert(line.subrange(2, line.len() - 2) =~= v@.subrange(a as int + 2, b as int - 2));
            assert(st@ =~~= scan_line(st0, raw));
        }
        return ;
    }
    if b - a >= 2 && v[a] == '[' && v[b - 1] == ']' {
        proof {
            assert(!is_array_header(line));
            assert(is_scalar_header(line));
        }
        st.section = string_of_range(v, a + 1, b - 1);
        st.array_section = String::new();
        proof {
            assert(line.subrange(1, line.len() - 1) =~= v@.subrange(a as int + 1, b as int - 1));
            assert(st@ =~~= scan_line(st0, raw));
        }
        return ;
    }
    proof {
        assert(!is_array_header(line));
        assert(!is_scalar_header(line));
    }
    match find_in_range(v, a, b, '=') {
        None => {
            proof {
                assert(find_ch(line, '=') is None);
            }
        },
        Some(j) => {
            proof {
                assert(find_ch(line, '=') == Some(j - a));
            }
            let (ka, kb) = trim_range(v, a, j);
            let (ta, tb) = trim_range(v, j + 1, b);
            let (va, vb) = strip_pair_range(v, ta, tb);
            proof {
                assert(line.take(j - a) =~= v@.subrange(a as int, j as int));
                assert(line.skip(j - a + 1) =~= v@.subrange(j as int + 1, b as int));
                assert(v@.subrange(ka as int, kb as int) == spec_trim(line.take(j - a)));
                assert(v@.subrange(va as int, vb as int) == strip_pair(
                    spec_trim(line.skip(j - a + 1)),
                ));
            }
            scan_kv_exec(st, v, ka, kb, va, vb);
            proof {
                assert(st@ =~~= scan_line(st0, raw));
            }
        },
    }
}

fn opt_or(o: Option<String>, d: &str) -> (s: String)
    ensures
        s@ == or_default(opt_view(o), d@),
{
    match o {
        Some(s) => s,
        None => d.to_owned(),
    }
}

impl ApmmConfig {
    /// Parses a manifest document. Parsing is total: any text, including
    /// empty or binary-garbage input, yields a configuration; absent or
    /// malformed fields take their documented defaults.
    pub fn from_content(content: &str) -> (r: Result<ApmmConfig, String>)
        ensures
            r matches Ok(c) && c@ == parse_manifest(content@),
    {
        let v = str_chars(content);
        let ghost lines = split_on(content@, '\n');
        let ranges = split_ranges(&v, 0, v.len(), '\n');
        proof {
            assert(v@.subrange(0, v@.len() as int) =~= content@);
        }
        let mut st = new_scan_exec();
        let mut i: usize = 0;
        while i < ranges.len()
            invariant
                0 <= i <= ranges.len(),
                v@ == content@,
                lines == split_on(content@, '\n'),
                ranges@.len() == lines.len(),
                forall|k: int|
                    0 <= k < ranges@.len() ==> {
                        &&& #[trigger] ranges@[k].0 <= ranges@[k].1 <= v@.len()
                        &&& v@.subrange(ranges@[k].0 as int, ranges@[k].1 as int) == lines[k]
                    },
                st@ == scan_lines(init_scan_state(), lines.take(i as int)),
            decreases ranges.len() - i,
        {
            let (rlo, rhi) = ranges[i];
            scan_line_exec(&mut st, &v, rlo, rhi);
            proof {
                assert(lines.take(i as int).push(lines[i as int]) =~= lines.take(i as int + 1));
                lemma_scan_lines_snoc(init_scan_state(), lines.take(i as int), lines[i as int]);
            }
            i = i + 1;
        }
        proof {
            assert(lines.take(lines.len() as int) =~= lines);
        }
        let ghost fin = scan_lines(init_scan_state(), lines);
        let ScanExec {
            section: _,
            array_section: _,
            id,
            name,
            description,
            version,
            version_code,
            author,
            license,
            prebuild,
            build,
            postbuild,
            requires: reqs,
            backend,
        } = st;
        let vc: i64 = match version_code {
            Some(s) => {
                let sv = str_chars(s.as_str());
                match parse_i64_range(&sv, 0, sv.len()) {
                    Some(x) => {
                        proof {
                            assert(sv@.subrange(0, sv@.len() as int) =~= s@);
                        }
                        x
                    },
                    None => {
                        proof {
                            assert(sv@.subrange(0, sv@.len() as int) =~= s@);
                        }
                        1
                    },
                }
            },
            None => 1,
        };
        let c = ApmmConfig {
            id: opt_or(id, "unknown"),
            name: opt_or(name, "Unknown"),
            description: opt_or(description, ""),
            version: opt_or(version, "0.1.0"),
            version_code: vc,
            author: opt_or(author, "Unknown"),
            license: opt_or(license, "MIT"),
            build_config: BuildConfig {
                prebuild_steps: prebuild,
                build_steps: build,
                postbuild_steps: postbuild,
                system_requires: reqs,
                build_backend: backend,
            },
        };
        proof {
            reveal_strlit("");
            assert(""@ =~= Seq::<char>::empty());
            assert(c@ =~~= parse_manifest(content@));
        }
        Ok(c)
    }
}

/// The declared identifier of the first `id = ` line, unquoted and trimmed.
pub open spec fn extract_from_lines(lines: Seq<Seq<char>>) -> Option<Seq<char>>
    decreases lines.len(),
{
    if lines.len() == 0 {
        None
    } else {
        let line = spec_trim(lines[0]);
        if has_prefix(line, "id = "@) {
            Some(spec_trim(strip_quotes(line.skip(5))))
        } else {
            extract_from_lines(lines.drop_first())
        }
    }
}

/// The module identifier a manifest document declares, if any.
pub open spec fn extract_id(text: Seq<char>) -> Option<Seq<char>> {
    extract_from_lines(split_on(text, '\n'))
}

/// Reads the declared module identifier out of a manifest document: the
/// first trimmed line of the form `id = value`, with surrounding quotes and
/// whitespace removed from the value. Fails exactly when no such line
/// exists.
pub fn extract_module_id(content: &str) -> (r: Result<String, String>)
    ensures
        match extract_id(content@) {
            Some(i) => r matches Ok(s) && s@ == i,
            None => r matches Err(e) && e@ == "Module ID not found in module.prop"@,
        },
{
    let v = str_chars(content);
    let ghost lines = split_on(content@, '\n');
    let ranges = split_ranges(&v, 0, v.len(), '\n');
    proof {
        assert(v@.subrange(0, v@.len() as int) =~= content@);
        assert(lines.skip(0) =~= lines);
    }
    let mut i: usize = 0;
    while i < ranges.len()
        invariant
            0 <= i <= ranges.len(),
            v@ == content@,
            lines == split_on(content@, '\n'),
            ranges@.len() == lines.len(),
            forall|k: int|
                0 <= k < ranges@.len() ==> {
                    &&& #[trigger] ranges@[k].0 <= ranges@[k].1 <= v@.len()
                    &&& v@.subrange(ranges@[k].0 as int, ranges@[k].1 as int) == lines[k]
                },
            extract_from_lines(lines) == extract_from_lines(lines.skip(i as int)),
        decreases ranges.len() - i,
    {
        let (rlo, rhi) = ranges[i];
        let (a, b) = trim_range(&v, rlo, rhi);
        let ghost line = spec_trim(lines[i as int]);
        proof {
            assert(lines.skip(i as int)[0] == lines[i as int]);
            assert(lines.skip(i as int).drop_first() =~= lines.skip(i as int + 1));
            assert(v@.subrange(a as int, b as int) == line);
        }
        if range_has_prefix(&v, a, b, "id = ") {
            proof {
                reveal_strlit("id = ");
                assert("id = "@.len() == 5);
                assert(has_prefix(line, "id = "@));
                assert(line.skip(5) =~= v@.subrange(a as int + 5, b as int));
            }
            let (qa, qb) = strip_quotes_range(&v, a + 5, b);
            let (ta, tb) = trim_range(&v, qa, qb);
            let s = string_of_range(&v, ta, tb);
            proof {
                assert(extract_from_lines(lines.skip(i as int)) == Some(
                    spec_trim(strip_quotes(line.skip(5))),
                ));
                assert(s@ == spec_trim(strip_quotes(line.skip(5))));
            }
            return Ok(s);
        }
        proof {
            assert(!has_prefix(line, "id = "@));
        }
        i = i + 1;
    }
    proof {
        assert(lines.skip(lines.len() as int) =~= Seq::<Seq<char>>::empty());
        assert(extract_from_lines(lines) is None);
    }
    Err("Module ID not found in module.prop".to_owned())
}

/// Peeling one newline-terminated line off the front of a document scans
/// that line first.
pub proof fn lemma_scan_peel(st: ScanState, x: Seq<char>, rest: Seq<char>)
    requires
        forall|k: int| 0 <= k < x.len() ==> x[k] != '\n',
    ensures
        scan_lines(st, split_on(x + seq!['\n'] + rest, '\n')) == scan_lines(
            scan_line(st, x),
            split_on(rest, '\n'),
        ),
{
    let text = x + seq!['\n'] + rest;
    assert(forall|k: int| 0 <= k < x.len() ==> text[k] == x[k]);
    assert(text[x.len() as int] == '\n');
    crate::text::lemma_split_on_first_seg(text, '\n', x.len() as int);
    assert(text.take(x.len() as int) =~= x);
    assert(text.skip(x.len() as int + 1) =~= rest);
    let lines = split_on(text, '\n');
    assert(lines =~= seq![x] + split_on(rest, '\n'));
    crate::text::lemma_split_on_len(rest, '\n');
    assert(lines[0] == x);
    assert(lines.drop_first() =~= split_on(rest, '\n'));
    assert(scan_lines(st, lines) == scan_lines(scan_line(st, lines[0]), lines.drop_first()));
}

/// Scanning a document that joins newline-free lines scans exactly those
/// lines.
pub proof fn lemma_scan_join(st: ScanState, ls: Seq<Seq<char>>)
    requires
        forall|i: int| 0 <= i < ls.len() ==> crate::text::nl_free(#[trigger] ls[i]),
    ensures
        scan_lines(st, split_on(crate::text::join_nl(ls), '\n')) == scan_lines(st, ls),
    decreases ls.len(),
{
    if ls.len() == 0 {
        assert(crate::text::join_nl(ls) == Seq::<char>::empty());
        assert(split_on(Seq::<char>::empty(), '\n') == seq![Seq::<char>::empty()]);
        let lines = split_on(Seq::<char>::empty(), '\n');
        assert(scan_lines(st, lines) == scan_lines(scan_line(st, lines[0]), lines.drop_first()));
        assert(lines[0] == Seq::<char>::empty());
        assert(spec_trim(Seq::<char>::empty()) == Seq::<char>::empty());
        assert(scan_line(st, Seq::<char>::empty()) == st);
        assert(lines.drop_first() =~= Seq::<Seq<char>>::empty());
    } else {
        assert(crate::text::join_nl(ls) == ls[0] + seq!['\n'] + crate::text::join_nl(
            ls.drop_first(),
        ));
        assert(crate::text::nl_free(ls[0]));
        lemma_scan_peel(st, ls[0], crate::text::join_nl(ls.drop_first()));
        assert(forall|i: int|
            0 <= i < ls.drop_first().len() ==> (#[trigger] ls.drop_first()[i]) == ls[i + 1]);
        lemma_scan_join(scan_line(st, ls[0]), ls.drop_first());
    }
}

/// A line of the shape `key = "value"`, keys free of separators and
/// whitespace, is read as exactly that pair, whatever the value holds.
pub proof fn lemma_scan_scalar_quoted(st: ScanState, key: Seq<char>, val: Seq<char>)
    requires
        key.len() > 0,
        forall|k: int|
            0 <= k < key.len() ==> key[k] != '=' && !crate::text::is_wspace(#[trigger] key[k]),
        key[0] != '#',
        key[0] != '[',
    ensures
        scan_line(st, key + seq![' ', '=', ' ', '"'] + val + seq!['"']) == scan_kv(st, key, val),
{
    let x = key + seq![' ', '=', ' ', '"'] + val + seq!['"'];
    assert(x.len() == key.len() + 4 + val.len() + 1);
    assert(forall|k: int| 0 <= k < key.len() ==> x[k] == key[k]);
    let n = key.len() as int;
    assert(x[n] == ' ');
    assert(x[n + 1] == '=');
    assert(x[n + 2] == ' ');
    assert(x[n + 3] == '"');
    assert(forall|k: int| 0 <= k < val.len() ==> x[n + 4 + k] == val[k]);
    assert(x.last() == '"');
    assert(x[0] == key[0]);
    assert(trim_front(x) == x);
    assert(trim_back(x) == x);
    assert(spec_trim(x) == x);
    assert(!is_array_header(x));
    assert(!is_scalar_header(x));
    crate::text::lemma_find_ch_at(x, '=', n + 1);
    assert(find_ch(x, '=') == Some(n + 1));
    let keypart = x.take(n + 1);
    assert(keypart =~= key + seq![' ']);
    assert(trim_front(keypart) == keypart);
    assert(keypart.drop_last() =~= key);
    assert(trim_back(keypart) == trim_back(key));
    assert(trim_back(key) == key);
    assert(spec_trim(keypart) == key);
    let valpart = x.skip(n + 2);
    assert(valpart =~= seq![' ', '"'] + val + seq!['"']);
    assert(valpart[0] == ' ');
    assert(valpart.drop_first() =~= seq!['"'] + val + seq!['"']);
    let inner = seq!['"'] + val + seq!['"'];
    assert(trim_front(valpart) == trim_front(inner));
    assert(inner[0] == '"');
    assert(trim_front(inner) == inner);
    assert(inner.last() == '"');
    assert(trim_back(inner) == inner);
    assert(spec_trim(valpart) == inner);
    assert(inner.len() >= 2);
    assert(strip_pair(inner) =~= val);
    assert(scan_line(st, x) == scan_kv(st, spec_trim(x.take(n + 1)), strip_pair(spec_trim(x.skip(n
        + 2)))));
}

/// A line of the shape `key = value` with an unquoted value whose edges are
/// neither whitespace nor quotes is read as exactly that pair.
pub proof fn lemma_scan_scalar_plain(st: ScanState, key: Seq<char>, val: Seq<char>)
    requires
        key.len() > 0,
        forall|k: int|
            0 <= k < key.len() ==> key[k] != '=' && !crate::text::is_wspace(#[trigger] key[k]),
        key[0] != '#',
        key[0] != '[',
        val.len() > 0,
        !crate::text::is_wspace(val[0]),
        !crate::text::is_wspace(val.last()),
        val[0] != '"',
    ensures
        scan_line(st, key + seq![' ', '=', ' '] + val) == scan_kv(st, key, val),
{
    let x = key + seq![' ', '=', ' '] + val;
    assert(x.len() == key.len() + 3 + val.len());
    assert(forall|k: int| 0 <= k < key.len() ==> x[k] == key[k]);
    let n = key.len() as int;
    assert(x[n] == ' ');
    assert(x[n + 1] == '=');
    assert(x[n + 2] == ' ');
    assert(forall|k: int| 0 <= k < val.len() ==> x[n + 3 + k] == val[k]);
    assert(x.last() == val.last());
    assert(x[0] == key[0]);
    assert(trim_front(x) == x);
    assert(trim_back(x) == x);
    assert(spec_trim(x) == x);
    assert(!is_array_header(x));
    assert(!is_scalar_header(x));
    crate::text::lemma_find_ch_at(x, '=', n + 1);
    assert(find_ch(x, '=') == Some(n + 1));
    let keypart = x.take(n + 1);
    assert(keypart =~= key + seq![' ']);
    assert(trim_front(keypart) == keypart);
    assert(keypart.drop_last() =~= key);
    assert(trim_back(keypart) == trim_back(key));
    assert(trim_back(key) == key);
    assert(spec_trim(keypart) == key);
    let valpart = x.skip(n + 2);
    assert(valpart =~= seq![' '] + val);
    assert(valpart[0] == ' ');
    assert(valpart.drop_first() =~= val);
    assert(trim_front(valpart) == trim_front(val));
    assert(trim_front(val) == val);
    assert(trim_back(val) == val);
    assert(spec_trim(valpart) == val);
    assert(strip_pair(val) == val);
    assert(scan_line(st, x) == scan_kv(st, spec_trim(x.take(n + 1)), strip_pair(spec_trim(x.skip(n
        + 2)))));
}

/// Once any section is open, no line can touch the scalar fields — except
/// the two degenerate headers that reopen the top level, which are ruled
/// out here.
pub proof fn lemma_scalars_stable(st: ScanState, raw: Seq<char>)
    requires
        st.section.len() > 0 || st.array_section.len() > 0,
        spec_trim(raw) != seq!['[', ']'],
        spec_trim(raw) != seq!['[', '[', ']', ']'],
    ensures
        ({
            let st2 = scan_line(st, raw);
            &&& st2.id == st.id
            &&& st2.name == st.name
            &&& st2.description == st.description
            &&& st2.version == st.version
            &&& st2.version_code == st.version_code
            &&& st2.author == st.author
            &&& st2.license == st.license
            &&& (st2.section.len() > 0 || st2.array_section.len() > 0)
        }),
{
    let line = spec_trim(raw);
    if line.len() == 0 || line[0] == '#' {
    } else if is_array_header(line) {
        if line.len() == 4 {
            assert(line =~= seq!['[', '[', ']', ']']);
        }
        assert(line.len() >= 5);
        assert(line.subrange(2, line.len() - 2).len() > 0);
    } else if is_scalar_header(line) {
        if line.len() == 2 {
            assert(line =~= seq!['[', ']']);
        }
        assert(line.len() >= 3);
        assert(line.subrange(1, line.len() - 1).len() > 0);
    } else {
    }
}

/// Inside a recognized array section every key/value line appends exactly
/// one step, in document order, and touches nothing else: two `prebuild`
/// headers each followed by one key/value line accumulate two steps.
pub proof fn lemma_array_section_accumulates(st: ScanState, raw: Seq<char>)
    requires
        st.array_section == "build.prebuild"@,
        find_ch(spec_trim(raw), '=') is Some,
        spec_trim(raw).len() > 0,
        spec_trim(raw)[0] != '#',
        !is_array_header(spec_trim(raw)),
        !is_scalar_header(spec_trim(raw)),
    ensures
        ({
            let line = spec_trim(raw);
            let i = find_ch(line, '=')->Some_0;
            scan_line(st, raw) == ScanState {
                prebuild: st.prebuild.push(
                    StepModel {
                        name: spec_trim(line.take(i)),
                        command: strip_pair(spec_trim(line.skip(i + 1))),
                    },
                ),
                ..st
            }
        }),
{
    reveal_strlit("build.prebuild");
    assert(st.array_section.len() > 0);
}

/// Any line read while an unrecognized array section is open contributes
/// zero steps to every phase: the document still parses, the unknown
/// section's contents are discarded.
pub proof fn lemma_unknown_array_section_adds_no_step(st: ScanState, raw: Seq<char>)
    requires
        st.array_section.len() > 0,
        st.array_section != "build.prebuild"@,
        st.array_section != "build.build"@,
        st.array_section != "build.postbuild"@,
    ensures
        scan_line(st, raw).prebuild == st.prebuild,
        scan_line(st, raw).build == st.build,
        scan_line(st, raw).postbuild == st.postbuild,
{
}

} // verus!
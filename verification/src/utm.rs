//! Everything the tool decides about `utmctl` and UTM: where the binary may
//! live, how `utmctl list` output is read, which command lines and AppleScript
//! are run, and how their failures are reported. Running the processes is the
//! binary's part.
use vstd::prelude::*;
use crate::models::{VmInfo, VmInfoView, opt_view, vms_view};
use crate::text::{
    ascii_lower, chars_of, is_ascii_ws, is_ascii_ws_exec, lines,
    lines_exec, path_join, path_join_exec, push_str, string_of_range, to_ascii_lowercase,
    to_owned, trim, trim_bounds, trim_str,
};

verus! {

// ---------------------------------------------------------------------------
// `utmctl list` output
// ---------------------------------------------------------------------------
/// The first index at or after `i` that is not ASCII whitespace.
pub open spec fn skip_ws(s: Seq<char>, i: int) -> int
    decreases s.len() - i,
{
    if 0 <= i < s.len() && is_ascii_ws(s[i]) {
        skip_ws(s, i + 1)
    } else {
        i
    }
}

/// The first index at or after `i` that is ASCII whitespace.
pub open spec fn skip_word(s: Seq<char>, i: int) -> int
    decreases s.len() - i,
{
    if 0 <= i < s.len() && !is_ascii_ws(s[i]) {
        skip_word(s, i + 1)
    } else {
        i
    }
}

fn skip_ws_exec(v: &Vec<char>, i: usize) -> (r: usize)
    requires
        i <= v.len(),
    ensures
        r == skip_ws(v@, i as int),
        i <= r <= v.len(),
{
    let mut j = i;
    while j < v.len() && is_ascii_ws_exec(v[j])
        invariant
            i <= j <= v.len(),
            skip_ws(v@, j as int) == skip_ws(v@, i as int),
        decreases v.len() - j,
    {
        j += 1;
    }
    j
}

fn skip_word_exec(v: &Vec<char>, i: usize) -> (r: usize)
    requires
        i <= v.len(),
    ensures
        r == skip_word(v@, i as int),
        i <= r <= v.len(),
{
    let mut j = i;
    while j < v.len() && !is_ascii_ws_exec(v[j])
        invariant
            i <= j <= v.len(),
            skip_word(v@, j as int) == skip_word(v@, i as int),
        decreases v.len() - j,
    {
        j += 1;
    }
    j
}

/// The columns of a `utmctl list` line: up to two words separated by ASCII
/// whitespace, then everything after them, trimmed, as one last column.
pub open spec fn columns(s: Seq<char>) -> Seq<Seq<char>> {
    let i0 = skip_ws(s, 0);
    if i0 >= s.len() {
        seq![]
    } else {
        let e1 = skip_word(s, i0);
        let c1 = s.subrange(i0, e1);
        let i1 = skip_ws(s, e1);
        if i1 >= s.len() {
            seq![c1]
        } else {
            let e2 = skip_word(s, i1);
            let c2 = s.subrange(i1, e2);
            let i2 = skip_ws(s, e2);
            if i2 >= s.len() {
                seq![c1, c2]
            } else {
                seq![c1, c2, trim(s.subrange(i2, s.len() as int))]
            }
        }
    }
}

/// The string contents of a list of strings.
pub open spec fn strings_view(v: Seq<String>) -> Seq<Seq<char>> {
    v.map_values(|s: String| s@)
}

/// Splits a `utmctl list` line into its columns.
pub fn parse_columns(line: &str) -> (r: Vec<String>)
    ensures
        strings_view(r@) == columns(line@),
{
    let v = chars_of(line);
    let ghost s = line@;
    let mut cols: Vec<String> = Vec::new();
    let i0 = skip_ws_exec(&v, 0);
    if i0 >= v.len() {
        assert(strings_view(cols@) =~= columns(s));
        return cols;
    }
    let e1 = skip_word_exec(&v, i0);
    let c1 = string_of_range(&v, i0, e1);
    cols.push(c1);
    let i1 = skip_ws_exec(&v, e1);
    if i1 >= v.len() {
        assert(strings_view(cols@) =~= columns(s));
        return cols;
    }
    let e2 = skip_word_exec(&v, i1);
    let c2 = string_of_range(&v, i1, e2);
    cols.push(c2);
    let i2 = skip_ws_exec(&v, e2);
    if i2 >= v.len() {
        assert(strings_view(cols@) =~= columns(s));
        return cols;
    }
    let rest = string_of_range(&v, i2, v.len());
    let rv = chars_of(rest.as_str());
    let (lo, hi) = trim_bounds(&rv);
    let c3 = string_of_range(&rv, lo, hi);
    cols.push(c3);
    assert(strings_view(cols@) =~= columns(s));
    cols
}

/// The VM states that `utmctl list` reports.
pub open spec fn state_running() -> Seq<char> {
    seq!['r', 'u', 'n', 'n', 'i', 'n', 'g']
}

pub open spec fn state_stopped() -> Seq<char> {
    seq!['s', 't', 'o', 'p', 'p', 'e', 'd']
}

pub open spec fn state_paused() -> Seq<char> {
    seq!['p', 'a', 'u', 's', 'e', 'd']
}

/// A state column, case-folded, if it names a known state.
pub open spec fn state_of(value: Seq<char>) -> Option<Seq<char>> {
    let lower = ascii_lower(value);
    if lower == state_running() || lower == state_stopped() || lower == state_paused() {
        Some(lower)
    } else {
        None
    }
}

/// Reads a state column.
pub fn parse_state(value: &str) -> (r: Option<String>)
    ensures
        opt_view(r) == state_of(value@),
{
    let lower = to_ascii_lowercase(value);
    let running = "running".to_string();
    let stopped = "stopped".to_string();
    let paused = "paused".to_string();
    proof {
        reveal_strlit("running");
        reveal_strlit("stopped");
        reveal_strlit("paused");
        assert(running@ =~= state_running());
        assert(stopped@ =~= state_stopped());
        assert(paused@ =~= state_paused());
    }
    if lower == running || lower == stopped || lower == paused {
        return Some(lower);
    }
    None
}

/// The word `uuid`.
pub open spec fn word_uuid() -> Seq<char> {
    seq!['u', 'u', 'i', 'd']
}

/// The word `name`.
pub open spec fn word_name() -> Seq<char> {
    seq!['n', 'a', 'm', 'e']
}

/// The word `status`.
pub open spec fn word_status() -> Seq<char> {
    seq!['s', 't', 'a', 't', 'u', 's']
}

/// The header line of `utmctl list`: its columns are the titles `UUID`,
/// `Status` and `Name` (or `Status` and `Name`), in any case. A VM line
/// whose name merely holds these words is no header.
pub open spec fn is_header(line: Seq<char>) -> bool {
    let cols = columns(line);
    ||| (cols.len() == 3 && ascii_lower(cols[0]) == word_uuid() && ascii_lower(cols[1])
        == word_status() && ascii_lower(cols[2]) == word_name())
    ||| (cols.len() == 2 && ascii_lower(cols[0]) == word_status() && ascii_lower(cols[1])
        == word_name())
}

/// Whether a line is the header of `utmctl list`.
pub fn is_header_line(line: &str) -> (r: bool)
    ensures
        r == is_header(line@),
{
    let cols = parse_columns(line);
    let uuid = "uuid".to_string();
    let status = "status".to_string();
    let name = "name".to_string();
    proof {
        reveal_strlit("uuid");
        reveal_strlit("name");
        reveal_strlit("status");
        assert(uuid@ =~= word_uuid());
        assert(name@ =~= word_name());
        assert(status@ =~= word_status());
    }
    let ghost cv = columns(line@);
    assert(cols@.len() == cv.len());
    if cols.len() == 3 {
        assert(cols@[0]@ == cv[0] && cols@[1]@ == cv[1] && cols@[2]@ == cv[2]) by {
            assert(strings_view(cols@)[0] == cols@[0]@);
            assert(strings_view(cols@)[1] == cols@[1]@);
            assert(strings_view(cols@)[2] == cols@[2]@);
        }
        let a = to_ascii_lowercase(cols[0].as_str());
        let b = to_ascii_lowercase(cols[1].as_str());
        let c = to_ascii_lowercase(cols[2].as_str());
        a == uuid && b == status && c == name
    } else if cols.len() == 2 {
        assert(cols@[0]@ == cv[0] && cols@[1]@ == cv[1]) by {
            assert(strings_view(cols@)[0] == cols@[0]@);
            assert(strings_view(cols@)[1] == cols@[1]@);
        }
        let a = to_ascii_lowercase(cols[0].as_str());
        let b = to_ascii_lowercase(cols[1].as_str());
        a == status && b == name
    } else {
        false
    }
}

/// What one line of `utmctl list` says: the VM's state, if a known one, and
/// its name. Blank lines, the header and lines with a single column say
/// nothing. With two columns they are state and name; with three, the first
/// is the UUID.
pub open spec fn list_line(line: Seq<char>) -> Option<(Option<Seq<char>>, Seq<char>)> {
    let t = trim(line);
    if t.len() == 0 || is_header(t) {
        None
    } else {
        let cols = columns(t);
        if cols.len() < 2 {
            None
        } else if cols.len() == 2 {
            Some((state_of(cols[0]), cols[1]))
        } else {
            Some((state_of(cols[1]), cols[2]))
        }
    }
}

/// The plain values of a parsed line.
pub open spec fn parsed_line_view(r: Option<(Option<String>, String)>) -> Option<
    (Option<Seq<char>>, Seq<char>),
> {
    match r {
        Some((st, name)) => Some((opt_view(st), name@)),
        None => None,
    }
}

/// Reads one line of `utmctl list`.
pub fn parse_list_line(line: &str) -> (r: Option<(Option<String>, String)>)
    ensures
        parsed_line_view(r) == list_line(line@),
{
    let v = chars_of(line);
    let (lo, hi) = trim_bounds(&v);
    let trimmed = string_of_range(&v, lo, hi);
    if lo == hi || is_header_line(trimmed.as_str()) {
        return None;
    }
    let columns = parse_columns(trimmed.as_str());
    if columns.len() == 0 {
        return None;
    }
    if columns.len() == 1 {
        return None;
    }
    if columns.len() == 2 {
        let state = parse_state(columns[0].as_str());
        let name = columns[1].clone();
        return Some((state, name));
    }
    assert(columns@.len() == 3);
    let state = parse_state(columns[1].as_str());
    let name = columns[2].clone();
    Some((state, name))
}

/// The VMs listed by the lines of `utmctl list`, in order, with no OS and no
/// creation time known yet.
pub open spec fn listed_vms(lines: Seq<Seq<char>>) -> Seq<VmInfoView>
    decreases lines.len(),
{
    if lines.len() == 0 {
        seq![]
    } else {
        let before = listed_vms(lines.drop_last());
        match list_line(lines.last()) {
            Some((state, name)) => before.push(
                VmInfoView { name, state, os: None, created_at: None },
            ),
            None => before,
        }
    }
}

/// Reads the output of `utmctl list` into VMs.
pub fn parse_list_output(stdout: &str) -> (r: Vec<VmInfo>)
    ensures
        vms_view(r@) == listed_vms(lines(stdout@)),
{
    let ls = lines_exec(stdout);
    let ghost lv = lines(stdout@);
    let mut vms: Vec<VmInfo> = Vec::new();
    let mut i: usize = 0;
    while i < ls.len()
        invariant
            ls@.map_values(|l: String| l@) == lv,
            i <= ls.len(),
            vms_view(vms@) == listed_vms(lv.take(i as int)),
        decreases ls.len() - i,
    {
        assert(lv.take(i + 1).drop_last() =~= lv.take(i as int));
        assert(lv[i as int] == ls@[i as int]@);
        let ghost before = vms@;
        if let Some((state, name)) = parse_list_line(ls[i].as_str()) {
            let vm = VmInfo { name, state, os: None, created_at: None };
            vms.push(vm);
            assert(vms_view(vms@) =~= vms_view(before).push(vm@));
        }
        i += 1;
    }
    assert(lv.take(ls.len() as int) =~= lv);
    vms
}

// ---------------------------------------------------------------------------
// Decoding process output
// ---------------------------------------------------------------------------
/// The text that `String::from_utf8_lossy` makes of `bytes`: their UTF-8
/// decoding, with U+FFFD in place of each invalid sequence.
pub uninterp spec fn utf8_lossy(bytes: Seq<u8>) -> Seq<char>;

/// `String::from_utf8_lossy`, as an owned string.
#[verifier::external_body]
fn decode_lossy(bytes: &[u8]) -> (r: String)
    ensures
        r@ == utf8_lossy(bytes@),
{
    String::from_utf8_lossy(bytes).into_owned()
}

/// Reads the raw standard output of `utmctl list` into VMs.
pub fn list_vms_from_output(stdout: &[u8]) -> (r: Vec<VmInfo>)
    ensures
        vms_view(r@) == listed_vms(lines(utf8_lossy(stdout@))),
{
    let text = decode_lossy(stdout);
    parse_list_output(text.as_str())
}

/// The words used when a failed command printed nothing.
pub open spec fn unknown_error() -> Seq<char> {
    seq!['u', 'n', 'k', 'n', 'o', 'w', 'n', ' ', 'e', 'r', 'r', 'o', 'r']
}

/// The message of a failed command: the first line of its trimmed error
/// output, or `unknown error` when there is none.
pub open spec fn first_error_line(stderr: Seq<char>) -> Seq<char> {
    let ls = lines(trim(stderr));
    if ls.len() == 0 {
        unknown_error()
    } else {
        ls[0]
    }
}

/// The message of a failed command, from its error output as text.
pub fn error_line(stderr: &str) -> (r: String)
    ensures
        r@ == first_error_line(stderr@),
{
    let t = trim_str(stderr);
    let ls = lines_exec(t.as_str());
    proof {
        assert(ls@.map_values(|l: String| l@).len() == ls@.len());
    }
    if ls.len() == 0 {
        let r = to_owned("unknown error");
        proof {
            reveal_strlit("unknown error");
            assert(r@ =~= unknown_error());
        }
        r
    } else {
        assert(ls@.map_values(|l: String| l@)[0] == ls@[0]@);
        ls[0].clone()
    }
}

/// The message of a failed command, from its raw error output.
pub fn stderr_msg(stderr: &[u8]) -> (r: String)
    ensures
        r@ == first_error_line(utf8_lossy(stderr@)),
{
    let text = decode_lossy(stderr);
    error_line(text.as_str())
}

// ---------------------------------------------------------------------------
// Where utmctl may be
// ---------------------------------------------------------------------------
/// The path segments of a Unix path that `Path::components` reports as
/// normal components: empty segments and `.` are dropped.
pub open spec fn add_segment(done: Seq<Seq<char>>, seg: Seq<char>) -> Seq<Seq<char>> {
    if seg.len() == 0 || seg == seq!['.'] {
        done
    } else {
        done.push(seg)
    }
}

/// The segments before the last `/` of `s`, and the text after it.
pub open spec fn path_parts(s: Seq<char>) -> (Seq<Seq<char>>, Seq<char>)
    decreases s.len(),
{
    if s.len() == 0 {
        (seq![], seq![])
    } else {
        let (done, cur) = path_parts(s.drop_last());
        if s.last() == '/' {
            (add_segment(done, cur), seq![])
        } else {
            (done, cur.push(s.last()))
        }
    }
}

/// The named segments of a path, in order.
pub open spec fn path_segments(s: Seq<char>) -> Seq<Seq<char>> {
    let (done, cur) = path_parts(s);
    add_segment(done, cur)
}

pub open spec fn seg_utm_app() -> Seq<char> {
    seq!['U', 'T', 'M', '.', 'a', 'p', 'p']
}

pub open spec fn seg_contents() -> Seq<char> {
    seq!['C', 'o', 'n', 't', 'e', 'n', 't', 's']
}

pub open spec fn seg_macos() -> Seq<char> {
    seq!['M', 'a', 'c', 'O', 'S']
}

pub open spec fn seg_utmctl() -> Seq<char> {
    seq!['u', 't', 'm', 'c', 't', 'l']
}

/// The path ends with the components `UTM.app/Contents/MacOS/utmctl`.
pub open spec fn is_bundled_utmctl(path: Seq<char>) -> bool {
    let segs = path_segments(path);
    let n = segs.len();
    n >= 4 && segs[n - 1] == seg_utmctl() && segs[n - 2] == seg_macos() && segs[n - 3]
        == seg_contents() && segs[n - 4] == seg_utm_app()
}

fn add_segment_exec(done: &mut Vec<String>, cur: String)
    ensures
        strings_view(final(done)@) == add_segment(strings_view(old(done)@), cur@),
{
    let ghost before = done@;
    let cv = chars_of(cur.as_str());
    if cv.len() == 0 || (cv.len() == 1 && cv[0] == '.') {
        proof {
            if cv.len() == 1 {
                assert(cur@ =~= seq!['.']);
            }
        }
        return;
    }
    proof {
        if cur@ == seq!['.'] {
            assert(cv@[0] == '.');
        }
    }
    done.push(cur);
    assert(strings_view(done@) =~= strings_view(before).push(cur@));
}

/// The named segments of a path.
pub fn segments_of(path: &str) -> (r: Vec<String>)
    ensures
        strings_view(r@) == path_segments(path@),
{
    let v = chars_of(path);
    let mut done: Vec<String> = Vec::new();
    let mut cur = String::new();
    let mut i: usize = 0;
    while i < v.len()
        invariant
            v@ == path@,
            i <= v.len(),
            (strings_view(done@), cur@) == path_parts(path@.take(i as int)),
        decreases v.len() - i,
    {
        assert(path@.take(i + 1).drop_last() =~= path@.take(i as int));
        let c = v[i];
        if c == '/' {
            add_segment_exec(&mut done, cur);
            cur = String::new();
        } else {
            cur.push(c);
        }
        i += 1;
    }
    assert(path@.take(v.len() as int) =~= path@);
    add_segment_exec(&mut done, cur);
    done
}

/// Whether a path is a `utmctl` inside a UTM application bundle: its last
/// four components are `UTM.app`, `Contents`, `MacOS` and `utmctl`.
pub fn is_utmctl_path(path: &str) -> (r: bool)
    ensures
        r == is_bundled_utmctl(path@),
{
    let segs = segments_of(path);
    let n = segs.len();
    if n < 4 {
        return false;
    }
    let utmctl = "utmctl".to_string();
    let macos = "MacOS".to_string();
    let contents = "Contents".to_string();
    let app = "UTM.app".to_string();
    proof {
        reveal_strlit("utmctl");
        reveal_strlit("MacOS");
        reveal_strlit("Contents");
        reveal_strlit("UTM.app");
        assert(utmctl@ =~= seg_utmctl());
        assert(macos@ =~= seg_macos());
        assert(contents@ =~= seg_contents());
        assert(app@ =~= seg_utm_app());
        assert(strings_view(segs@)[n - 1] == segs@[n - 1]@);
        assert(strings_view(segs@)[n - 2] == segs@[n - 2]@);
        assert(strings_view(segs@)[n - 3] == segs@[n - 3]@);
        assert(strings_view(segs@)[n - 4] == segs@[n - 4]@);
    }
    segs[n - 1] == utmctl && segs[n - 2] == macos && segs[n - 3] == contents && segs[n - 4]
        == app
}

/// The home directory of the user, as `dirs::home_dir` finds it. It depends
/// on the environment and the user database, so nothing is stated of it.
/// The library holds paths as strings: bytes of the path that are not UTF-8
/// come back as U+FFFD.
#[verifier::external_body]
pub(crate) fn home_dir() -> Option<String> {
    dirs::home_dir().map(|p| p.to_string_lossy().into_owned())
}

/// The standard places of `utmctl`, the one under the home directory last.
pub open spec fn fallback_paths(home: Option<Seq<char>>) -> Seq<Seq<char>> {
    let fixed = seq![
        "/Applications/UTM.app/Contents/MacOS/utmctl"@,
        "/opt/homebrew/bin/utmctl"@,
        "/usr/local/bin/utmctl"@,
    ];
    match home {
        Some(h) => fixed.push(path_join(h, "Applications/UTM.app/Contents/MacOS/utmctl"@)),
        None => fixed,
    }
}

/// The standard places of `utmctl` for a given home directory.
pub fn fallback_paths_for(home: Option<String>) -> (r: Vec<String>)
    ensures
        strings_view(r@) == fallback_paths(opt_view(home)),
{
    let mut paths: Vec<String> = Vec::new();
    paths.push(to_owned("/Applications/UTM.app/Contents/MacOS/utmctl"));
    paths.push(to_owned("/opt/homebrew/bin/utmctl"));
    paths.push(to_owned("/usr/local/bin/utmctl"));
    match home {
        Some(h) => {
            paths.push(path_join_exec(h.as_str(), "Applications/UTM.app/Contents/MacOS/utmctl"));
        },
        None => {},
    }
    assert(strings_view(paths@) =~= fallback_paths(opt_view(home)));
    paths
}

/// The standard places of `utmctl` for the current user.
pub fn fallback_utmctl_paths() -> (r: Vec<String>)
    ensures
        exists|home: Option<Seq<char>>| strings_view(r@) == fallback_paths(home),
{
    let home = home_dir();
    fallback_paths_for(home)
}

/// The first of the paths that exists (`exists[i]` tells for `paths[i]`).
pub open spec fn first_existing(paths: Seq<Seq<char>>, exists: Seq<bool>) -> Option<Seq<char>>
    decreases paths.len(),
{
    if paths.len() == 0 || exists.len() == 0 {
        None
    } else if exists[0] {
        Some(paths[0])
    } else {
        first_existing(paths.drop_first(), exists.drop_first())
    }
}

/// Picks the first standard place of `utmctl` that exists.
pub fn first_existing_path(paths: &Vec<String>, exists: &Vec<bool>) -> (r: Option<String>)
    ensures
        opt_view(r) == first_existing(strings_view(paths@), exists@),
{
    let ghost all = strings_view(paths@);
    assert(all.skip(0) =~= all);
    assert(exists@.skip(0) =~= exists@);
    let mut i: usize = 0;
    while i < paths.len() && i < exists.len()
        invariant
            i <= paths@.len(),
            i <= exists@.len(),
            all == strings_view(paths@),
            first_existing(all, exists@) == first_existing(all.skip(i as int), exists@.skip(i as int)),
        decreases paths.len() - i,
    {
        assert(all.skip(i as int)[0] == paths@[i as int]@);
        assert(exists@.skip(i as int)[0] == exists@[i as int]);
        if exists[i] {
            return Some(paths[i].clone());
        }
        assert(all.skip(i as int).drop_first() =~= all.skip(i + 1));
        assert(exists@.skip(i as int).drop_first() =~= exists@.skip(i + 1));
        i += 1;
    }
    None
}

/// The configured path, trimmed, unless it is blank.
pub open spec fn explicit_path(configured: Seq<char>) -> Option<Seq<char>> {
    if trim(configured).len() == 0 {
        None
    } else {
        Some(trim(configured))
    }
}

/// The configured `utmctl` path to use, if one is set.
pub fn explicit_utmctl(configured: &str) -> (r: Option<String>)
    ensures
        opt_view(r) == explicit_path(configured@),
{
    let t = trim_str(configured);
    if t.as_str().is_empty() {
        None
    } else {
        Some(t)
    }
}

/// The explicit `utmctl` path of the configuration: the one set, trimmed,
/// unless none is set or it is blank.
pub open spec fn explicit_setting(configured: Option<Seq<char>>) -> Option<Seq<char>> {
    match configured {
        Some(c) => explicit_path(c),
        None => None,
    }
}

/// The explicit `utmctl` path of the configuration, if there is one.
pub fn explicit_utmctl_setting(configured: &Option<String>) -> (r: Option<String>)
    ensures
        opt_view(r) == explicit_setting(opt_view(*configured)),
{
    match configured {
        Some(c) => explicit_utmctl(c.as_str()),
        None => None,
    }
}

/// The path to check for `utmctl`: the configured one if set, else the one
/// found on `PATH`, else the first standard place that exists.
pub open spec fn utmctl_candidate(
    configured: Option<Seq<char>>,
    on_path: Option<Seq<char>>,
    existing_fallback: Option<Seq<char>>,
) -> Option<Seq<char>> {
    if explicit_setting(configured) is Some {
        explicit_setting(configured)
    } else if on_path is Some {
        on_path
    } else {
        existing_fallback
    }
}

/// Picks the path to check for `utmctl`.
pub fn choose_utmctl_candidate(
    configured: &Option<String>,
    on_path: Option<String>,
    existing_fallback: Option<String>,
) -> (r: Option<String>)
    ensures
        opt_view(r) == utmctl_candidate(
            opt_view(*configured),
            opt_view(on_path),
            opt_view(existing_fallback),
        ),
{
    let explicit = explicit_utmctl_setting(configured);
    if explicit.is_some() {
        explicit
    } else if on_path.is_some() {
        on_path
    } else {
        existing_fallback
    }
}

/// Why `utmctl` could not be used.
pub enum UtmctlError {
    /// No configured path, none on `PATH`, none in the standard places.
    NotFound,
    /// The path could not be resolved to a file.
    Unresolvable(String),
    /// The resolved path is not inside a UTM application bundle.
    NotInBundle(String),
}

/// The result of checking a candidate path, given what resolving it gave
/// (`None` where `fs::canonicalize` failed).
pub open spec fn checked_utmctl(requested: Seq<char>, canonical: Option<Seq<char>>) -> Result<
    Seq<char>,
    UtmctlErrorView,
> {
    match canonical {
        None => Err(UtmctlErrorView::Unresolvable(requested)),
        Some(p) => if is_bundled_utmctl(p) {
            Ok(p)
        } else {
            Err(UtmctlErrorView::NotInBundle(p))
        },
    }
}

/// `UtmctlError` over plain values.
pub enum UtmctlErrorView {
    NotFound,
    Unresolvable(Seq<char>),
    NotInBundle(Seq<char>),
}

impl View for UtmctlError {
    type V = UtmctlErrorView;

    open spec fn view(&self) -> UtmctlErrorView {
        match self {
            UtmctlError::NotFound => UtmctlErrorView::NotFound,
            UtmctlError::Unresolvable(p) => UtmctlErrorView::Unresolvable(p@),
            UtmctlError::NotInBundle(p) => UtmctlErrorView::NotInBundle(p@),
        }
    }
}

/// Checks the resolved form of a candidate path.
pub fn validated_utmctl_path(requested: &str, canonical: Option<String>) -> (r: Result<
    String,
    UtmctlError,
>)
    ensures
        match r {
            Ok(p) => checked_utmctl(requested@, opt_view(canonical)) == Ok::<
                Seq<char>,
                UtmctlErrorView,
            >(p@),
            Err(e) => checked_utmctl(requested@, opt_view(canonical)) == Err::<
                Seq<char>,
                UtmctlErrorView,
            >(e@),
        },
{
    match canonical {
        None => Err(UtmctlError::Unresolvable(to_owned(requested))),
        Some(p) => {
            if is_utmctl_path(p.as_str()) {
                Ok(p)
            } else {
                Err(UtmctlError::NotInBundle(p))
            }
        },
    }
}

/// What each failure to find `utmctl` reports.
pub open spec fn utmctl_error_message(e: UtmctlErrorView) -> Seq<char> {
    match e {
        UtmctlErrorView::NotFound => "utmctl not found: no explicit utmctl_path, not on PATH, and no UTM.app install found in standard locations. Set utmctl_path or UTMD_UTMCTL_PATH to the path of a utmctl binary inside UTM.app"@,
        UtmctlErrorView::Unresolvable(p) => "failed to resolve utmctl path '"@ + p + "'"@,
        UtmctlErrorView::NotInBundle(p) => "resolved utmctl path '"@ + p
            + "' does not end with UTM.app/Contents/MacOS/utmctl"@,
    }
}

impl UtmctlError {
    /// The message shown for the failure.
    pub fn message(&self) -> (r: String)
        ensures
            r@ == utmctl_error_message(self@),
    {
        match self {
            UtmctlError::NotFound => to_owned(
                "utmctl not found: no explicit utmctl_path, not on PATH, and no UTM.app install found in standard locations. Set utmctl_path or UTMD_UTMCTL_PATH to the path of a utmctl binary inside UTM.app",
            ),
            UtmctlError::Unresolvable(p) => {
                let mut r = to_owned("failed to resolve utmctl path '");
                push_str(&mut r, p.as_str());
                push_str(&mut r, "'");
                r
            },
            UtmctlError::NotInBundle(p) => {
                let mut r = to_owned("resolved utmctl path '");
                push_str(&mut r, p.as_str());
                push_str(&mut r, "' does not end with UTM.app/Contents/MacOS/utmctl");
                r
            },
        }
    }
}

/// The advice shown when `utmctl` cannot be used.
pub fn utmctl_hint() -> (r: &'static str)
    ensures
        r@ == "utmctl ships inside UTM.app and requires a GUI login session; it fails over SSH or before login"@,
{
    "utmctl ships inside UTM.app and requires a GUI login session; it fails over SSH or before login"
}

/// The error that stops every command but `init` when `utmctl` is missing.
pub fn dependency_missing_message() -> (r: &'static str)
    ensures
        r@ == "utmctl dependency missing"@,
{
    "utmctl dependency missing"
}

/// The note printed once `utmctl` is found.
pub fn using_utmctl_message(path: &str) -> (r: String)
    ensures
        r@ == "using utmctl at "@ + path@,
{
    let mut r = to_owned("using utmctl at ");
    push_str(&mut r, path);
    r
}

// ---------------------------------------------------------------------------
// The commands run against UTM
// ---------------------------------------------------------------------------
/// A `utmctl` invocation.
pub enum UtmctlOp {
    List,
    Clone { template: String, name: String },
    Start { name: String },
    Stop { name: String },
    Delete { name: String },
}

/// Seconds a clone may take.
pub const TIMEOUT_CLONE: u64 = 120;

/// Seconds a start, stop or delete may take.
pub const TIMEOUT_MUTATION: u64 = 30;

/// Seconds a query may take.
pub const TIMEOUT_QUERY: u64 = 10;

/// The arguments passed to `utmctl` for each operation.
pub open spec fn op_args(op: UtmctlOp) -> Seq<Seq<char>> {
    match op {
        UtmctlOp::List => seq!["list"@],
        UtmctlOp::Clone { template, name } => seq!["clone"@, template@, "--name"@, name@],
        UtmctlOp::Start { name } => seq!["start"@, name@],
        UtmctlOp::Stop { name } => seq!["stop"@, name@],
        UtmctlOp::Delete { name } => seq!["delete"@, name@],
    }
}

/// Each single-VM operation runs the `utmctl` subcommand of its own name on
/// exactly that VM, and the first argument of every operation is the word
/// its timeout label names after `utmctl `.
pub proof fn law_op_args_name_the_subcommand(name: String, template: String)
    ensures
        op_args(UtmctlOp::Start { name }) == seq!["start"@, name@],
        op_args(UtmctlOp::Stop { name }) == seq!["stop"@, name@],
        op_args(UtmctlOp::Delete { name }) == seq!["delete"@, name@],
        op_args(UtmctlOp::Clone { template, name }) == seq!["clone"@, template@, "--name"@, name@],
        op_args(UtmctlOp::List) == seq!["list"@],
        forall|op: UtmctlOp| #[trigger] op_args(op)[0] == op_label(op).skip(7),
{
    reveal_strlit("list");
    reveal_strlit("clone");
    reveal_strlit("start");
    reveal_strlit("stop");
    reveal_strlit("delete");
    reveal_strlit("utmctl list");
    reveal_strlit("utmctl clone");
    reveal_strlit("utmctl start");
    reveal_strlit("utmctl stop");
    reveal_strlit("utmctl delete");
    assert("utmctl list"@.skip(7) =~= "list"@);
    assert("utmctl clone"@.skip(7) =~= "clone"@);
    assert("utmctl start"@.skip(7) =~= "start"@);
    assert("utmctl stop"@.skip(7) =~= "stop"@);
    assert("utmctl delete"@.skip(7) =~= "delete"@);
}

/// The name under which each operation is reported when it times out.
pub open spec fn op_label(op: UtmctlOp) -> Seq<char> {
    match op {
        UtmctlOp::List => "utmctl list"@,
        UtmctlOp::Clone { .. } => "utmctl clone"@,
        UtmctlOp::Start { .. } => "utmctl start"@,
        UtmctlOp::Stop { .. } => "utmctl stop"@,
        UtmctlOp::Delete { .. } => "utmctl delete"@,
    }
}

/// How long each operation may take.
pub open spec fn op_timeout(op: UtmctlOp) -> u64 {
    match op {
        UtmctlOp::List => TIMEOUT_QUERY,
        UtmctlOp::Clone { .. } => TIMEOUT_CLONE,
        _ => TIMEOUT_MUTATION,
    }
}

/// The message of a failed operation, given the first line of its error
/// output.
pub open spec fn op_failure(op: UtmctlOp, detail: Seq<char>) -> Seq<char> {
    match op {
        UtmctlOp::List => "failed to run utmctl list: "@ + detail,
        UtmctlOp::Clone { .. } => "failed to clone vm: "@ + detail,
        UtmctlOp::Start { name } => "failed to start vm '"@ + name@ + "': "@ + detail,
        UtmctlOp::Stop { name } => "failed to stop vm '"@ + name@ + "': "@ + detail,
        UtmctlOp::Delete { name } => "failed to delete vm '"@ + name@ + "': "@ + detail,
    }
}

/// The note printed before a changing operation runs.
pub open spec fn op_notice(op: UtmctlOp) -> Option<Seq<char>> {
    match op {
        UtmctlOp::List => None,
        UtmctlOp::Clone { .. } => Some("info: running utmctl clone..."@),
        UtmctlOp::Start { .. } => Some("info: running utmctl start..."@),
        UtmctlOp::Stop { .. } => Some("info: running utmctl stop..."@),
        UtmctlOp::Delete { .. } => Some("info: running utmctl delete..."@),
    }
}

impl UtmctlOp {
    /// The arguments to pass to `utmctl`.
    pub fn args(&self) -> (r: Vec<String>)
        ensures
            strings_view(r@) == op_args(*self),
    {
        let mut r: Vec<String> = Vec::new();
        match self {
            UtmctlOp::List => {
                r.push(to_owned("list"));
            },
            UtmctlOp::Clone { template, name } => {
                r.push(to_owned("clone"));
                r.push(template.clone());
                r.push(to_owned("--name"));
                r.push(name.clone());
            },
            UtmctlOp::Start { name } => {
                r.push(to_owned("start"));
                r.push(name.clone());
            },
            UtmctlOp::Stop { name } => {
                r.push(to_owned("stop"));
                r.push(name.clone());
            },
            UtmctlOp::Delete { name } => {
                r.push(to_owned("delete"));
                r.push(name.clone());
            },
        }
        assert(strings_view(r@) =~= op_args(*self));
        r
    }

    /// The label reported on a timeout.
    pub fn label(&self) -> (r: &'static str)
        ensures
            r@ == op_label(*self),
    {
        match self {
            UtmctlOp::List => "utmctl list",
            UtmctlOp::Clone { .. } => "utmctl clone",
            UtmctlOp::Start { .. } => "utmctl start",
            UtmctlOp::Stop { .. } => "utmctl stop",
            UtmctlOp::Delete { .. } => "utmctl delete",
        }
    }

    /// The time limit in seconds.
    pub fn timeout_secs(&self) -> (r: u64)
        ensures
            r == op_timeout(*self),
    {
        match self {
            UtmctlOp::List => TIMEOUT_QUERY,
            UtmctlOp::Clone { .. } => TIMEOUT_CLONE,
            _ => TIMEOUT_MUTATION,
        }
    }

    /// The note printed before the operation runs, if any.
    pub fn notice(&self) -> (r: Option<&'static str>)
        ensures
            match r {
                Some(n) => op_notice(*self) == Some(n@),
                None => op_notice(*self) is None,
            },
    {
        match self {
            UtmctlOp::List => None,
            UtmctlOp::Clone { .. } => Some("info: running utmctl clone..."),
            UtmctlOp::Start { .. } => Some("info: running utmctl start..."),
            UtmctlOp::Stop { .. } => Some("info: running utmctl stop..."),
            UtmctlOp::Delete { .. } => Some("info: running utmctl delete..."),
        }
    }

    /// The message of the failed operation, from its raw error output.
    pub fn failure_message(&self, stderr: &[u8]) -> (r: String)
        ensures
            r@ == op_failure(*self, first_error_line(utf8_lossy(stderr@))),
    {
        let detail = stderr_msg(stderr);
        let mut r = match self {
            UtmctlOp::List => to_owned("failed to run utmctl list: "),
            UtmctlOp::Clone { .. } => to_owned("failed to clone vm: "),
            UtmctlOp::Start { name } => {
                let mut m = to_owned("failed to start vm '");
                push_str(&mut m, name.as_str());
                push_str(&mut m, "': ");
                m
            },
            UtmctlOp::Stop { name } => {
                let mut m = to_owned("failed to stop vm '");
                push_str(&mut m, name.as_str());
                push_str(&mut m, "': ");
                m
            },
            UtmctlOp::Delete { name } => {
                let mut m = to_owned("failed to delete vm '");
                push_str(&mut m, name.as_str());
                push_str(&mut m, "': ");
                m
            },
        };
        push_str(&mut r, detail.as_str());
        r
    }
}

// ---------------------------------------------------------------------------
// Waiting for a command
// ---------------------------------------------------------------------------
/// What to do while a command with a time limit runs.
#[derive(Copy, Clone, Debug, PartialEq, Eq, Structural)]
pub enum WaitAction {
    /// It has exited: collect its output.
    Collect,
    /// The time is up: kill it and report the timeout.
    Kill,
    /// Check again after `WAIT_POLL_MS` milliseconds.
    Sleep,
}

/// How long to sleep between two checks of a running command.
pub const WAIT_POLL_MS: u64 = 100;

/// The next step of waiting: a command that exited is collected; one still
/// running is killed once `elapsed_ms` reaches the limit, and waited for
/// otherwise.
pub open spec fn next_wait(exited: bool, elapsed_ms: u64, timeout_secs: u64) -> WaitAction {
    if exited {
        WaitAction::Collect
    } else if elapsed_ms >= timeout_secs * 1000 {
        WaitAction::Kill
    } else {
        WaitAction::Sleep
    }
}

/// Decides the next step of waiting for a command.
pub fn wait_step(exited: bool, elapsed_ms: u64, timeout_secs: u64) -> (r: WaitAction)
    ensures
        r == next_wait(exited, elapsed_ms, timeout_secs),
{
    if exited {
        WaitAction::Collect
    } else if elapsed_ms / 1000 >= timeout_secs {
        assert(elapsed_ms >= timeout_secs * 1000) by (nonlinear_arith)
            requires
                elapsed_ms / 1000 >= timeout_secs,
        ;
        WaitAction::Kill
    } else {
        assert(elapsed_ms < timeout_secs * 1000) by (nonlinear_arith)
            requires
                elapsed_ms / 1000 < timeout_secs,
        ;
        WaitAction::Sleep
    }
}

// ---------------------------------------------------------------------------
// AppleScript
// ---------------------------------------------------------------------------
/// How one character is written inside an AppleScript string literal.
pub open spec fn escape_char(c: char) -> Seq<char> {
    if c == '\\' {
        seq!['\\', '\\']
    } else if c == '"' {
        seq!['\\', '"']
    } else {
        seq![c]
    }
}

/// `s` written inside an AppleScript string literal: backslashes and double
/// quotes get a backslash in front.
pub open spec fn escape(s: Seq<char>) -> Seq<char>
    decreases s.len(),
{
    if s.len() == 0 {
        seq![]
    } else {
        escape_char(s[0]) + escape(s.drop_first())
    }
}

/// What an AppleScript string literal's body stands for: a backslash takes
/// the character after it literally.
pub open spec fn unescape(t: Seq<char>) -> Seq<char>
    decreases t.len(),
{
    if t.len() == 0 {
        seq![]
    } else if t[0] == '\\' && t.len() >= 2 {
        seq![t[1]] + unescape(t.skip(2))
    } else {
        seq![t[0]] + unescape(t.drop_first())
    }
}

proof fn lemma_escape_push(s: Seq<char>, c: char)
    ensures
        escape(s.push(c)) == escape(s) + escape_char(c),
    decreases s.len(),
{
    if s.len() == 0 {
        let sc = seq![c];
        assert(sc[0] == c);
        assert(sc.drop_first() =~= Seq::<char>::empty());
        assert(escape(sc.drop_first()) =~= Seq::<char>::empty());
        assert(escape(sc) =~= escape_char(c) + escape(sc.drop_first()));
        assert(escape(sc) =~= escape_char(c));
        assert(s.push(c) =~= seq![c]);
    } else {
        lemma_escape_push(s.drop_first(), c);
        assert(s.push(c).drop_first() =~= s.drop_first().push(c));
        assert(escape(s.push(c)) =~= escape(s) + escape_char(c));
    }
}

/// Escaping keeps the text: reading the escaped literal back gives `s`.
pub proof fn law_escape_round_trip(s: Seq<char>)
    ensures
        unescape(escape(s)) == s,
    decreases s.len(),
{
    if s.len() > 0 {
        law_escape_round_trip(s.drop_first());
        let c = s[0];
        let t = escape(s);
        let rest = escape(s.drop_first());
        if c == '\\' || c == '"' {
            assert(t =~= seq!['\\', c] + rest);
            assert(t.skip(2) =~= rest);
        } else {
            assert(t =~= seq![c] + rest);
            assert(t.drop_first() =~= rest);
        }
        assert(unescape(t) =~= s);
    }
}

/// Escaping works character by character, so it distributes over
/// concatenation.
pub proof fn law_escape_concat(a: Seq<char>, b: Seq<char>)
    ensures
        escape(a + b) == escape(a) + escape(b),
    decreases a.len(),
{
    if a.len() == 0 {
        assert(a + b =~= b);
        assert(escape(a) + escape(b) =~= escape(b));
    } else {
        law_escape_concat(a.drop_first(), b);
        assert((a + b).drop_first() =~= a.drop_first() + b);
        assert((a + b)[0] == a[0]);
        assert(escape(a + b) =~= escape(a) + escape(b));
    }
}

/// The number of backslashes that stand right before index `i` of `t`.
pub open spec fn backslashes_before(t: Seq<char>, i: int) -> nat
    decreases i,
{
    if 0 < i && i <= t.len() && t[i - 1] == '\\' {
        1 + backslashes_before(t, i - 1)
    } else {
        0
    }
}

proof fn lemma_backslashes_before_prefix(t: Seq<char>, e: Seq<char>, i: int)
    requires
        0 <= i <= t.len(),
    ensures
        backslashes_before(t + e, i) == backslashes_before(t, i),
    decreases i,
{
    if i > 0 {
        lemma_backslashes_before_prefix(t, e, i - 1);
        assert((t + e)[i - 1] == t[i - 1]);
    }
}

proof fn lemma_escape_backslash_runs(s: Seq<char>)
    ensures
        backslashes_before(escape(s), escape(s).len() as int) % 2 == 0,
        forall|i: int|
            0 <= i < escape(s).len() && escape(s)[i] == '"' ==> #[trigger] backslashes_before(
                escape(s),
                i,
            ) % 2 == 1,
    decreases s.len(),
{
    if s.len() == 0 {
        assert(escape(s).len() == 0);
    } else {
        let p = s.drop_last();
        let c = s.last();
        lemma_escape_backslash_runs(p);
        assert(p.push(c) =~= s);
        lemma_escape_push(p, c);
        let t = escape(p);
        let e = escape_char(c);
        let u = escape(s);
        assert(u == t + e);
        let n = t.len() as int;
        lemma_backslashes_before_prefix(t, e, n);
        assert forall|i: int| 0 <= i < u.len() && u[i] == '"' implies #[trigger] backslashes_before(
            u,
            i,
        ) % 2 == 1 by {
            if i < n {
                lemma_backslashes_before_prefix(t, e, i);
                assert(u[i] == t[i]);
            } else {
                assert(u[i] == e[i - n]);
                assert(c == '"' && i == n + 1);
                assert(u[n] == '\\');
            }
        }
        if c == '\\' {
            assert(u[n] == '\\' && u[n + 1] == '\\');
            assert(backslashes_before(u, n + 1) == 1 + backslashes_before(u, n));
            assert(backslashes_before(u, n + 2) == 1 + backslashes_before(u, n + 1));
        } else if c == '"' {
            assert(u[n + 1] == '"');
        } else {
            assert(u[n] == c);
        }
    }
}

/// In escaped text every double quote stands after an odd number of
/// backslashes, so none of them can end the AppleScript string literal.
pub proof fn law_escape_quotes_after_odd_backslashes(s: Seq<char>)
    ensures
        forall|i: int|
            0 <= i < escape(s).len() && escape(s)[i] == '"' ==> #[trigger] backslashes_before(
                escape(s),
                i,
            ) % 2 == 1,
{
    lemma_escape_backslash_runs(s);
}

/// Escapes a string for an AppleScript string literal.
pub fn escape_applescript_string(value: &str) -> (r: String)
    ensures
        r@ == escape(value@),
{
    let v = chars_of(value);
    let mut r = String::new();
    let mut i: usize = 0;
    while i < v.len()
        invariant
            v@ == value@,
            i <= v.len(),
            r@ == escape(value@.take(i as int)),
        decreases v.len() - i,
    {
        let c = v[i];
        proof {
            lemma_escape_push(value@.take(i as int), c);
            assert(value@.take(i + 1) =~= value@.take(i as int).push(c));
        }
        if c == '\\' {
            r.push('\\');
            r.push('\\');
        } else if c == '"' {
            r.push('\\');
            r.push('"');
        } else {
            r.push(c);
        }
        assert(r@ =~= escape(value@.take(i + 1)));
        i += 1;
    }
    assert(value@.take(v.len() as int) =~= value@);
    r
}

/// The script that brings UTM to the front and starts the named VM if it is
/// stopped or paused.
pub open spec fn open_script(name: Seq<char>) -> Seq<char> {
    "tell application \"UTM\"\nactivate\nset vmref to virtual machine named \""@ + escape(name)
        + "\"\nset vm_status to status of vmref\nif vm_status is stopped or vm_status is paused then\nstart vmref\nend if\nend tell"@
}

/// The AppleScript that opens a VM in UTM.
pub fn open_vm_script(name: &str) -> (r: String)
    ensures
        r@ == open_script(name@),
{
    let escaped = escape_applescript_string(name);
    let mut r = to_owned("tell application \"UTM\"\nactivate\nset vmref to virtual machine named \"");
    push_str(&mut r, escaped.as_str());
    push_str(
        &mut r,
        "\"\nset vm_status to status of vmref\nif vm_status is stopped or vm_status is paused then\nstart vmref\nend if\nend tell",
    );
    r
}

/// The label of `osascript` when it times out.
pub fn osascript_label() -> (r: &'static str)
    ensures
        r@ == "osascript"@,
{
    "osascript"
}

/// The message of a failed `osascript` run.
pub open spec fn open_failure(name: Seq<char>, detail: Seq<char>) -> Seq<char> {
    "failed to open vm '"@ + name + "' in UTM: "@ + detail
}

/// The message of a failed attempt to open a VM, from the raw error output.
pub fn open_failure_message(name: &str, stderr: &[u8]) -> (r: String)
    ensures
        r@ == open_failure(name@, first_error_line(utf8_lossy(stderr@))),
{
    let detail = stderr_msg(stderr);
    let mut r = to_owned("failed to open vm '");
    push_str(&mut r, name);
    push_str(&mut r, "' in UTM: ");
    push_str(&mut r, detail.as_str());
    r
}

} // verus!

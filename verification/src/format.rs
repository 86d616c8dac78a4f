//! Rendering of responses for human consumption: each response variant maps
//! to bytes on one of the output channels.  The JSON mode lives with the
//! envelope encoder; this module owns the shell mode.

use crate::codec::{envelope_json, render_envelope_json};
use crate::data::{
    Capability, Change, ChangeKind, DirEntry, Envelope, FileType, Metadata, Msg, ResponseData,
    SearchQueryMatch, SystemInfo, UnixMetadata, WindowsMetadata,
};
use crate::text::{
    bool_rep, bytes_le, contains_string, dec_rep, dec_rep_int, joined, json_escaped,
    json_string_rep, lemma_joined_push, push_bool, push_i32_dec, push_json_string,
    push_str_bytes, push_trimmed_end, push_u64_dec, str_bytes_le, trim_end_bytes,
};
use vstd::prelude::*;
use vstd::string::StringSliceAdditionalSpecFns;
use vstd::utf8::encode_utf8;

verus! {

/// The two rendering modes: machine-readable lines or human-readable text.
#[derive(Copy, Clone, Debug, PartialEq, Eq, Structural)]
pub enum Format {
    Json,
    Shell,
}

/// The output content and the channel it is destined for.  `Line` variants
/// are followed by a newline when written; `Silent` writes nothing.
#[derive(Clone, Debug, PartialEq, Eq)]
pub enum Output {
    Stdout(Vec<u8>),
    StdoutLine(Vec<u8>),
    Stderr(Vec<u8>),
    StderrLine(Vec<u8>),
    Silent,
}

/// The mathematical shape of an [`Output`]: a channel and its bytes.
pub enum OutputRep {
    Stdout(Seq<u8>),
    StdoutLine(Seq<u8>),
    Stderr(Seq<u8>),
    StderrLine(Seq<u8>),
    Silent,
}

impl View for Output {
    type V = OutputRep;

    open spec fn view(&self) -> OutputRep {
        match self {
            Output::Stdout(v) => OutputRep::Stdout(v@),
            Output::StdoutLine(v) => OutputRep::StdoutLine(v@),
            Output::Stderr(v) => OutputRep::Stderr(v@),
            Output::StderrLine(v) => OutputRep::StderrLine(v@),
            Output::Silent => OutputRep::Silent,
        }
    }
}

/// Mutable rendering state: the path last reported while grouping search
/// results, carried across batches so a file split over batches keeps one
/// header.
#[derive(Clone, Debug, PartialEq, Eq)]
pub struct FormatterState {
    /// Last seen path during search.
    pub last_searched_path: Option<String>,
}

impl FormatterState {
    /// The state as a mathematical value.
    pub open spec fn last_view(self) -> Option<Seq<char>> {
        match self.last_searched_path {
            Option::Some(p) => Option::Some(p@),
            Option::None => Option::None,
        }
    }

    /// A fresh state with no path seen yet.
    pub fn new() -> (s: FormatterState)
        ensures
            s.last_view() is None,
    {
        FormatterState { last_searched_path: None }
    }
}

/// The cell reported for a directory entry's type.
pub open spec fn dir_entry_cell(ft: FileType) -> Seq<char> {
    match ft {
        FileType::Dir => "<DIR>"@,
        FileType::File => ""@,
        FileType::Symlink => "<SYMLINK>"@,
    }
}

/// The table rows for a directory listing: type cell, then path; no header.
pub open spec fn dir_rows(entries: Seq<DirEntry>) -> Seq<Seq<Seq<char>>> {
    entries.map_values(|e: DirEntry| seq![dir_entry_cell(e.file_type), e.path@])
}

/// The table rows for the capability listing: a header row, then one row per
/// capability.
pub open spec fn cap_rows(caps: Seq<Capability>) -> Seq<Seq<Seq<char>>> {
    seq![seq!["kind"@, "description"@]] + caps.map_values(
        |c: Capability| seq![c.kind@, c.description@],
    )
}

/// Order on capabilities: by the UTF-8 bytes of the kind.
pub open spec fn cap_le(a: Capability, b: Capability) -> bool {
    bytes_le(encode_utf8(a.kind@), encode_utf8(b.kind@))
}

/// `c` inserted into `s` before the first element it precedes or equals.
pub open spec fn insert_sorted_cap(c: Capability, s: Seq<Capability>) -> Seq<Capability>
    decreases s.len(),
{
    if s.len() == 0 {
        seq![c]
    } else if cap_le(c, s[0]) {
        seq![c] + s
    } else {
        seq![s[0]] + insert_sorted_cap(c, s.drop_first())
    }
}

/// The capabilities sorted by kind: an insertion sort, one element at a
/// time from the back of the input.
pub open spec fn sorted_caps(s: Seq<Capability>) -> Seq<Capability>
    decreases s.len(),
{
    if s.len() == 0 {
        s
    } else {
        insert_sorted_cap(s.last(), sorted_caps(s.drop_last()))
    }
}

/// What the table renderer produces for the given rows; the text depends on
/// the rows and the chosen style alone.
pub uninterp spec fn table_text(rows: Seq<Seq<Seq<char>>>, ascii: bool) -> Seq<char>;

/// Relies on tabled's `builder::Builder`, `Table::with`, and the `Display`
/// of `Table`: renders the rows as a text table, with the ascii style when
/// `ascii` is set and the blank style otherwise, all cells left-aligned.
#[verifier::external_body]
fn render_table(rows: &Vec<Vec<String>>, ascii: bool) -> (r: String)
    ensures
        r@ == table_text(rows.deep_view(), ascii),
{
    let mut builder = tabled::builder::Builder::new();
    for row in rows {
        builder.push_record(row.clone());
    }
    let mut table = builder.build();
    if ascii {
        table.with(tabled::settings::Style::ascii());
    } else {
        table.with(tabled::settings::Style::blank());
    }
    table.with(tabled::settings::Alignment::left());
    table.to_string()
}

/// The line announcing what a change did to its paths.
pub open spec fn changed_prefix(kind: ChangeKind) -> Seq<char> {
    match kind {
        ChangeKind::Create => "Following paths were created:\n"@,
        ChangeKind::Remove => "Following paths were removed:\n"@,
        ChangeKind::Access => "Following paths were accessed:\n"@,
        ChangeKind::Modify => "Following paths were modified:\n"@,
        ChangeKind::Rename => "Following paths were renamed:\n"@,
        ChangeKind::Other => "Following paths were affected:\n"@,
    }
}

/// The rendering of a change: the announcement, then one bulleted path per
/// line.
pub open spec fn changed_text(c: Change) -> Seq<u8> {
    encode_utf8(changed_prefix(c.kind)) + joined(
        c.paths.deep_view().map_values(|p: Seq<char>| ("* ").spec_bytes() + encode_utf8(p)),
        ("\n").spec_bytes(),
    )
}

/// A label followed by quoted text and a newline.
pub open spec fn labeled_json_line(label: Seq<char>, value: Seq<char>) -> Seq<u8> {
    encode_utf8(label) + json_string_rep(value) + ("\n").spec_bytes()
}

/// A label followed by quoted text, with no newline.
pub open spec fn labeled_json_end(label: Seq<char>, value: Seq<char>) -> Seq<u8> {
    encode_utf8(label) + json_string_rep(value)
}

/// A label followed by plain text and a newline.
pub open spec fn labeled_str_line(label: Seq<char>, value: Seq<char>) -> Seq<u8> {
    encode_utf8(label) + encode_utf8(value) + ("\n").spec_bytes()
}

/// A label followed by a decimal number and a newline.
pub open spec fn labeled_u64_line(label: Seq<char>, n: nat) -> Seq<u8> {
    encode_utf8(label) + dec_rep(n) + ("\n").spec_bytes()
}

/// A label followed by `true` or `false` and a newline.
pub open spec fn labeled_bool_line(label: Seq<char>, b: bool) -> Seq<u8> {
    encode_utf8(label) + bool_rep(b) + ("\n").spec_bytes()
}

/// A label followed by `true` or `false`, with no newline.
pub open spec fn labeled_bool_end(label: Seq<char>, b: bool) -> Seq<u8> {
    encode_utf8(label) + bool_rep(b)
}

/// The canonicalized-path line of the metadata rendering, when present.
pub open spec fn metadata_canon_part(m: Metadata) -> Seq<u8> {
    match m.canonicalized_path {
        Option::Some(p) => ("Canonicalized Path: ").spec_bytes() + json_string_rep(p@) + (
        "\n").spec_bytes(),
        Option::None => Seq::empty(),
    }
}


/// The unix permission block of the metadata rendering, when present; its
/// last line carries no newline.
pub open spec fn metadata_unix_part(m: Metadata) -> Seq<u8> {
    match m.unix {
        Option::Some(u) => unix_block(u),
        Option::None => Seq::empty(),
    }
}

/// The unix permission block itself.
pub open spec fn unix_block(u: UnixMetadata) -> Seq<u8> {
    labeled_bool_line("Owner Read: "@, u.owner_read) + labeled_bool_line(
        "Owner Write: "@,
        u.owner_write,
    ) + labeled_bool_line("Owner Exec: "@, u.owner_exec) + labeled_bool_line(
        "Group Read: "@,
        u.group_read,
    ) + labeled_bool_line("Group Write: "@, u.group_write) + labeled_bool_line(
        "Group Exec: "@,
        u.group_exec,
    ) + labeled_bool_line("Other Read: "@, u.other_read) + labeled_bool_line(
        "Other Write: "@,
        u.other_write,
    ) + labeled_bool_end("Other Exec: "@, u.other_exec)
}

/// The windows attribute block of the metadata rendering, when present; its
/// last line carries no newline.
pub open spec fn metadata_windows_part(m: Metadata) -> Seq<u8> {
    match m.windows {
        Option::Some(w) => windows_block(w),
        Option::None => Seq::empty(),
    }
}

/// The windows attribute block itself.
pub open spec fn windows_block(w: WindowsMetadata) -> Seq<u8> {
    labeled_bool_line("Archive: "@, w.archive) + labeled_bool_line(
        "Compressed: "@,
        w.compressed,
    ) + labeled_bool_line("Encrypted: "@, w.encrypted) + labeled_bool_line("Hidden: "@, w.hidden)
        + labeled_bool_line("Integrity Stream: "@, w.integrity_stream) + labeled_bool_line(
        "Normal: "@,
        w.normal,
    ) + labeled_bool_line("Not Content Indexed: "@, w.not_content_indexed) + labeled_bool_line(
        "No Scrub Data: "@,
        w.no_scrub_data,
    ) + labeled_bool_line("Offline: "@, w.offline) + labeled_bool_line(
        "Recall on Data Access: "@,
        w.recall_on_data_access,
    ) + labeled_bool_line("Recall on Open: "@, w.recall_on_open) + labeled_bool_line(
        "Reparse Point: "@,
        w.reparse_point,
    ) + labeled_bool_line("Sparse File: "@, w.sparse_file) + labeled_bool_line(
        "System: "@,
        w.system,
    ) + labeled_bool_end("Temporary: "@, w.temporary)
}

/// The whole metadata rendering: a bare newline closes it when neither
/// platform block is present.
pub open spec fn metadata_text(m: Metadata) -> Seq<u8> {
    metadata_canon_part(m) + labeled_str_line("Type: "@, m.file_type.display_spec())
        + labeled_u64_line("Len: "@, m.len as nat) + labeled_bool_line("Readonly: "@, m.readonly)
        + labeled_u64_line("Created: "@, m.created.unwrap_or(0) as nat) + labeled_u64_line(
        "Last Accessed: "@,
        m.accessed.unwrap_or(0) as nat,
    ) + labeled_u64_line("Last Modified: "@, m.modified.unwrap_or(0) as nat)
        + metadata_unix_part(m) + metadata_windows_part(m) + metadata_tail(m)
}

/// The bare newline that closes a metadata rendering carrying neither
/// platform block.
pub open spec fn metadata_tail(m: Metadata) -> Seq<u8> {
    if m.unix is None && m.windows is None {
        ("\n").spec_bytes()
    } else {
        Seq::empty()
    }
}

/// The rendering of the host facts, one quoted value per line; the last line
/// carries no newline.
pub open spec fn system_info_text(si: SystemInfo) -> Seq<u8> {
    labeled_json_line("Family: "@, si.family@) + labeled_json_line("Operating System: "@, si.os@)
        + labeled_json_line("Arch: "@, si.arch@) + labeled_json_line("Cwd: "@, si.current_dir@)
        + labeled_json_line("Path Sep: "@, si.main_separator@) + labeled_json_line(
        "Username: "@,
        si.username@,
    ) + labeled_json_end("Shell: "@, si.shell@)
}

/// The line reporting a failed process.
pub open spec fn proc_done_text(id: u64, code: Option<i32>) -> Seq<u8> {
    match code {
        Option::Some(c) => ("Proc ").spec_bytes() + dec_rep(id as nat) + (
        " failed with code ").spec_bytes() + dec_rep_int(c as int),
        Option::None => ("Proc ").spec_bytes() + dec_rep(id as nat) + (" failed").spec_bytes(),
    }
}

/// The path a search match concerns.
pub open spec fn match_path_view(m: SearchQueryMatch) -> Seq<char> {
    match m {
        SearchQueryMatch::Path(p) => p.path@,
        SearchQueryMatch::Contents(c) => c.path@,
    }
}

/// Whether a match targets a path name rather than file contents.
pub open spec fn is_path_match(m: SearchQueryMatch) -> bool {
    m is Path
}

/// Whether any match in the batch targets a path name.
pub open spec fn has_path_match(ms: Seq<SearchQueryMatch>) -> bool {
    exists|i: int| 0 <= i < ms.len() && is_path_match(ms[i])
}

/// The distinct paths of the batch in order of first appearance, appended to
/// the accumulator.
pub open spec fn unique_paths(ms: Seq<SearchQueryMatch>, acc: Seq<Seq<char>>) -> Seq<Seq<char>>
    decreases ms.len(),
{
    if ms.len() == 0 {
        acc
    } else {
        let p = match_path_view(ms[0]);
        unique_paths(
            ms.drop_first(),
            if acc.contains(p) {
                acc
            } else {
                acc.push(p)
            },
        )
    }
}

/// The rendering of one content match: line number, colon, the matched lines
/// with trailing whitespace removed.
pub open spec fn search_line_rep(line_number: u64, lines: Seq<char>) -> Seq<u8> {
    dec_rep(line_number as nat) + (":").spec_bytes() + trim_end_bytes(encode_utf8(lines))
}

/// The content-match lines of the batch belonging to `p`, in batch order,
/// each closed by a newline.
pub open spec fn lines_text(ms: Seq<SearchQueryMatch>, p: Seq<char>) -> Seq<u8>
    decreases ms.len(),
{
    if ms.len() == 0 {
        Seq::empty()
    } else {
        (match ms[0] {
            SearchQueryMatch::Contents(c) => if c.path@ == p {
                search_line_rep(c.line_number, c.lines@) + ("\n").spec_bytes()
            } else {
                Seq::empty()
            },
            SearchQueryMatch::Path(_) => Seq::empty(),
        }) + lines_text(ms.drop_first(), p)
    }
}

/// The rendering of the whole batch: for each path in first-appearance order,
/// a header line when the path differs from the last one reported, a blank
/// separator between content-match groups, then the path's content matches.
pub open spec fn search_text(
    paths: Seq<Seq<char>>,
    ms: Seq<SearchQueryMatch>,
    last: Option<Seq<char>>,
    targeting_paths: bool,
) -> Seq<u8>
    decreases paths.len(),
{
    if paths.len() == 0 {
        Seq::empty()
    } else {
        let p = paths[0];
        let header = if last == Option::Some(p) {
            Seq::<u8>::empty()
        } else {
            (if last is Some && !targeting_paths {
                ("\n").spec_bytes()
            } else {
                Seq::<u8>::empty()
            }) + encode_utf8(p) + ("\n").spec_bytes()
        };
        header + lines_text(ms, p) + search_text(
            paths.drop_first(),
            ms,
            Option::Some(p),
            targeting_paths,
        )
    }
}

/// The state left behind after rendering a batch: the last path reported.
pub open spec fn search_next_last(paths: Seq<Seq<char>>, last: Option<Seq<char>>) -> Option<
    Seq<char>,
> {
    if paths.len() == 0 {
        last
    } else {
        Option::Some(paths.last())
    }
}

/// What the shell mode renders for a batch of search results.
pub open spec fn search_results_rep(last: Option<Seq<char>>, ms: Seq<SearchQueryMatch>)
    -> OutputRep {
    let paths = unique_paths(ms, Seq::empty());
    let text = search_text(paths, ms, last, has_path_match(ms));
    if text.len() == 0 {
        OutputRep::Silent
    } else {
        OutputRep::Stdout(text)
    }
}

/// The last-reported path after a batch of search results is rendered.
pub open spec fn search_results_next(last: Option<Seq<char>>, ms: Seq<SearchQueryMatch>) -> Option<
    Seq<char>,
> {
    search_next_last(unique_paths(ms, Seq::empty()), last)
}

/// What the shell mode renders for one response, given the last search path
/// reported.
pub open spec fn shell_rep(last: Option<Seq<char>>, d: ResponseData) -> OutputRep {
    match d {
        ResponseData::Okay => OutputRep::Silent,
        ResponseData::Error { kind, description } => OutputRep::StderrLine(
            encode_utf8(description@),
        ),
        ResponseData::Blob { data } => OutputRep::StdoutLine(data@),
        ResponseData::Text { data } => OutputRep::StdoutLine(encode_utf8(data@)),
        ResponseData::DirEntries { entries, errors } => OutputRep::Stdout(
            encode_utf8(table_text(dir_rows(entries@), false)),
        ),
        ResponseData::Changed(c) => OutputRep::StdoutLine(changed_text(c)),
        ResponseData::Exists { value } => OutputRep::StdoutLine(bool_rep(value)),
        ResponseData::Metadata(m) => OutputRep::StdoutLine(metadata_text(m)),
        ResponseData::SearchStarted { id } => OutputRep::StdoutLine(
            ("Query ").spec_bytes() + dec_rep(id as nat) + (" started").spec_bytes(),
        ),
        ResponseData::SearchResults { id, matches } => search_results_rep(last, matches@),
        ResponseData::SearchDone { id } => OutputRep::Silent,
        ResponseData::ProcSpawned { id } => OutputRep::Silent,
        ResponseData::ProcStdout { id, data } => OutputRep::Stdout(data@),
        ResponseData::ProcStderr { id, data } => OutputRep::Stderr(data@),
        ResponseData::ProcDone { id, success, code } => if success {
            OutputRep::Silent
        } else {
            OutputRep::StderrLine(proc_done_text(id, code))
        },
        ResponseData::SystemInfo(si) => OutputRep::StdoutLine(system_info_text(si)),
        ResponseData::Capabilities { supported } => OutputRep::StdoutLine(
            encode_utf8(table_text(cap_rows(sorted_caps(supported@)), true)),
        ),
    }
}

/// The search state after one response has been rendered; only a batch of
/// search results moves it.
pub open spec fn shell_next_last(last: Option<Seq<char>>, d: ResponseData) -> Option<Seq<char>> {
    match d {
        ResponseData::SearchResults { id, matches } => search_results_next(last, matches@),
        _ => last,
    }
}

/// The cell reported for a directory entry's type.
fn dir_cell(ft: FileType) -> (r: &'static str)
    ensures
        r@ == dir_entry_cell(ft),
{
    match ft {
        FileType::Dir => "<DIR>",
        FileType::File => "",
        FileType::Symlink => "<SYMLINK>",
    }
}

/// Renders the table of a directory listing.
fn render_dir_entries(entries: &Vec<DirEntry>) -> (v: Vec<u8>)
    ensures
        v@ == encode_utf8(table_text(dir_rows(entries@), false)),
{
    let mut rows: Vec<Vec<String>> = Vec::new();
    let n: usize = entries.len();
    let mut i: usize = 0;
    while i < n
        invariant
            n == entries@.len(),
            i <= n,
            rows@.len() == i,
            forall|k: int| 0 <= k < i ==> #[trigger] rows.deep_view()[k] == dir_rows(entries@)[k],
        decreases n - i,
    {
        let e = &entries[i];
        let cell: &'static str = dir_cell(e.file_type);
        let mut row: Vec<String> = Vec::new();
        row.push(cell.to_owned());
        row.push(e.path.clone());
        let ghost row_v = row.deep_view();
        proof {
            assert(row_v =~~= seq![dir_entry_cell(e.file_type), e.path@]);
        }
        let ghost rows_pre = rows@;
        let ghost dv_pre = rows.deep_view();
        rows.push(row);
        proof {
            assert forall|k: int| 0 <= k < i + 1 implies #[trigger] rows.deep_view()[k]
                == dir_rows(entries@)[k] by {
                assert(rows.deep_view()[k] == rows@[k].deep_view());
                if k < i {
                    assert(rows@[k] == rows_pre[k]);
                    assert(dv_pre[k] == rows_pre[k].deep_view());
                } else {
                    assert(rows@[k].deep_view() == row_v);
                    assert(dir_rows(entries@)[k] == seq![
                        dir_entry_cell(entries@[k].file_type),
                        entries@[k].path@,
                    ]);
                }
            }
        }
        i = i + 1;
    }
    proof {
        assert(rows.deep_view() =~= dir_rows(entries@));
    }
    let table = render_table(&rows, false);
    let mut v: Vec<u8> = Vec::new();
    push_str_bytes(&mut v, table.as_str());
    v
}

/// Compares two capabilities by kind.
fn cap_le_exec(a: &Capability, b: &Capability) -> (r: bool)
    ensures
        r == cap_le(*a, *b),
{
    str_bytes_le(a.kind.as_str(), b.kind.as_str())
}

/// Inserting before the first element `c` precedes splits the sequence at
/// that point.
proof fn lemma_insert_sorted_at(c: Capability, s: Seq<Capability>, j: int)
    requires
        0 <= j <= s.len(),
        forall|k: int| 0 <= k < j ==> !cap_le(c, s[k]),
        j < s.len() ==> cap_le(c, s[j]),
    ensures
        insert_sorted_cap(c, s) == s.take(j) + seq![c] + s.skip(j),
    decreases s.len(),
{
    if s.len() == 0 {
        assert(s.take(0) + seq![c] + s.skip(0) =~= seq![c]);
    } else if j == 0 {
        assert(s.take(0) + seq![c] + s.skip(0) =~= seq![c] + s);
    } else {
        let rest = s.drop_first();
        assert(forall|k: int| 0 <= k < j - 1 ==> rest[k] == s[k + 1]);
        if j - 1 < rest.len() {
            assert(rest[j - 1] == s[j]);
        }
        lemma_insert_sorted_at(c, rest, j - 1);
        assert(!cap_le(c, s[0]));
        assert(seq![s[0]] + (rest.take(j - 1) + seq![c] + rest.skip(j - 1)) =~= s.take(j)
            + seq![c] + s.skip(j));
    }
}

/// Inserts one capability into its place by kind.
fn insert_capability(r: &mut Vec<Capability>, c: Capability)
    ensures
        final(r)@ == insert_sorted_cap(c, old(r)@),
{
    let n: usize = r.len();
    let mut j: usize = 0;
    while j < n && !cap_le_exec(&c, &r[j])
        invariant
            j <= n,
            n == r@.len(),
            r@ == old(r)@,
            forall|k: int| 0 <= k < j ==> !cap_le(c, r@[k]),
        decreases n - j,
    {
        j = j + 1;
    }
    proof {
        lemma_insert_sorted_at(c, r@, j as int);
    }
    r.insert(j, c);
    proof {
        assert(r@ =~= old(r)@.take(j as int) + seq![c] + old(r)@.skip(j as int));
    }
}

/// Sorts the capabilities by kind.
fn sort_capabilities(caps: Vec<Capability>) -> (r: Vec<Capability>)
    ensures
        r@ == sorted_caps(caps@),
{
    let ghost orig = caps@;
    let mut caps = caps;
    let mut r: Vec<Capability> = Vec::new();
    let n: usize = caps.len();
    proof {
        assert(orig.take(0) =~= Seq::<Capability>::empty());
        assert(orig.skip(0) =~= orig);
    }
    let mut i: usize = 0;
    while i < n
        invariant
            i <= n,
            n == orig.len(),
            caps@ == orig.skip(i as int),
            r@ == sorted_caps(orig.take(i as int)),
        decreases n - i,
    {
        let c = caps.remove(0);
        proof {
            assert(c == orig[i as int]);
            assert(orig.skip(i as int).remove(0) =~= orig.skip(i + 1));
        }
        insert_capability(&mut r, c);
        proof {
            let t = orig.take(i + 1);
            assert(t.drop_last() =~= orig.take(i as int));
            assert(t.last() == orig[i as int]);
        }
        i = i + 1;
    }
    proof {
        assert(orig.take(n as int) =~= orig);
    }
    r
}

/// Renders the table of the capability listing, header row included, the
/// capabilities sorted by kind.
fn render_capabilities(supported: Vec<Capability>) -> (v: Vec<u8>)
    ensures
        v@ == encode_utf8(table_text(cap_rows(sorted_caps(supported@)), true)),
{
    let ghost given = supported@;
    let supported = sort_capabilities(supported);
    proof {
        assert(supported@ == sorted_caps(given));
    }
    let mut rows: Vec<Vec<String>> = Vec::new();
    let mut header: Vec<String> = Vec::new();
    header.push(("kind").to_owned());
    header.push(("description").to_owned());
    let ghost header_v = header.deep_view();
    proof {
        assert(header_v =~~= seq!["kind"@, "description"@]);
    }
    rows.push(header);
    proof {
        assert(rows.deep_view()[0] == header_v);
    }
    let n: usize = supported.len();
    let mut i: usize = 0;
    while i < n
        invariant
            n == supported@.len(),
            i <= n,
            rows@.len() == i + 1,
            rows.deep_view()[0] == seq!["kind"@, "description"@],
            forall|k: int|
                0 <= k < i ==> #[trigger] rows.deep_view()[k + 1] == cap_rows(supported@)[k + 1],
        decreases n - i,
    {
        let c = &supported[i];
        let mut row: Vec<String> = Vec::new();
        row.push(c.kind.clone());
        row.push(c.description.clone());
        let ghost row_v = row.deep_view();
        proof {
            assert(row_v =~~= seq![c.kind@, c.description@]);
        }
        let ghost rows_pre = rows@;
        let ghost dv_pre = rows.deep_view();
        rows.push(row);
        proof {
            assert(rows.deep_view()[0] == rows@[0].deep_view());
            assert(rows@[0] == rows_pre[0]);
            assert(dv_pre[0] == rows_pre[0].deep_view());
            assert forall|k: int| 0 <= k < i + 1 implies #[trigger] rows.deep_view()[k + 1]
                == cap_rows(supported@)[k + 1] by {
                assert(rows.deep_view()[k + 1] == rows@[k + 1].deep_view());
                if k < i {
                    assert(rows@[k + 1] == rows_pre[k + 1]);
                    assert(dv_pre[k + 1] == rows_pre[k + 1].deep_view());
                } else {
                    assert(rows@[k + 1].deep_view() == row_v);
                    assert(cap_rows(supported@)[k + 1] == seq![
                        supported@[k].kind@,
                        supported@[k].description@,
                    ]);
                }
            }
        }
        i = i + 1;
    }
    proof {
        assert(rows.deep_view().len() == cap_rows(supported@).len());
        assert forall|k: int| 0 <= k < n + 1 implies #[trigger] rows.deep_view()[k]
            == cap_rows(supported@)[k] by {
            if k == 0 {
                assert(cap_rows(supported@)[0] == seq!["kind"@, "description"@]);
            } else {
                assert(rows.deep_view()[(k - 1) + 1] == cap_rows(supported@)[(k - 1) + 1]);
            }
        }
        assert(rows.deep_view() =~= cap_rows(supported@));
    }
    let table = render_table(&rows, true);
    let mut v: Vec<u8> = Vec::new();
    push_str_bytes(&mut v, table.as_str());
    v
}

/// Renders the announcement and bulleted paths of a change.
fn render_changed(c: &Change) -> (v: Vec<u8>)
    ensures
        v@ == changed_text(*c),
{
    let mut v: Vec<u8> = Vec::new();
    match c.kind {
        ChangeKind::Create => push_str_bytes(&mut v, "Following paths were created:\n"),
        ChangeKind::Remove => push_str_bytes(&mut v, "Following paths were removed:\n"),
        ChangeKind::Access => push_str_bytes(&mut v, "Following paths were accessed:\n"),
        ChangeKind::Modify => push_str_bytes(&mut v, "Following paths were modified:\n"),
        ChangeKind::Rename => push_str_bytes(&mut v, "Following paths were renamed:\n"),
        ChangeKind::Other => push_str_bytes(&mut v, "Following paths were affected:\n"),
    }
    let ghost bullets = c.paths.deep_view().map_values(
        |p: Seq<char>| ("* ").spec_bytes() + encode_utf8(p),
    );
    let ghost prefix = v@;
    proof {
        assert(prefix =~= encode_utf8(changed_prefix(c.kind)));
        assert(v@ =~= prefix + joined(bullets.take(0), ("\n").spec_bytes()));
    }
    let n: usize = c.paths.len();
    let mut i: usize = 0;
    while i < n
        invariant
            n == c.paths@.len(),
            c.paths@.len() == c.paths.deep_view().len(),
            i <= n,
            bullets == c.paths.deep_view().map_values(
                |p: Seq<char>| ("* ").spec_bytes() + encode_utf8(p),
            ),
            forall|k: int| 0 <= k < c.paths@.len() ==> c.paths.deep_view()[k] == c.paths@[k]@,
            v@ == prefix + joined(bullets.take(i as int), ("\n").spec_bytes()),
        decreases n - i,
    {
        if i > 0 {
            push_str_bytes(&mut v, "\n");
        }
        push_str_bytes(&mut v, "* ");
        push_str_bytes(&mut v, c.paths[i].as_str());
        proof {
            assert(bullets.take(i + 1) =~= bullets.take(i as int).push(bullets[i as int]));
            lemma_joined_push(bullets.take(i as int), ("\n").spec_bytes(), bullets[i as int]);
            assert(v@ =~= prefix + joined(bullets.take(i + 1), ("\n").spec_bytes()));
        }
        i = i + 1;
    }
    proof {
        assert(bullets.take(bullets.len() as int) =~= bullets);
        assert(v@ =~= changed_text(*c));
    }
    v
}

/// Appends a label, quoted text, and optionally a newline.
fn push_labeled_json(v: &mut Vec<u8>, label: &str, value: &str, nl: bool)
    ensures
        final(v)@ == old(v)@ + (if nl {
            labeled_json_line(label@, value@)
        } else {
            labeled_json_end(label@, value@)
        }),
{
    push_str_bytes(v, label);
    push_json_string(v, value);
    if nl {
        push_str_bytes(v, "\n");
        proof {
            assert(v@ =~= old(v)@ + labeled_json_line(label@, value@));
        }
    } else {
        proof {
            assert(v@ =~= old(v)@ + labeled_json_end(label@, value@));
        }
    }
}

/// Appends a label, plain text, and a newline.
fn push_labeled_str(v: &mut Vec<u8>, label: &str, value: &str)
    ensures
        final(v)@ == old(v)@ + labeled_str_line(label@, value@),
{
    push_str_bytes(v, label);
    push_str_bytes(v, value);
    push_str_bytes(v, "\n");
    proof {
        assert(v@ =~= old(v)@ + labeled_str_line(label@, value@));
    }
}

/// Appends a label, a decimal number, and a newline.
fn push_labeled_u64(v: &mut Vec<u8>, label: &str, n: u64)
    ensures
        final(v)@ == old(v)@ + labeled_u64_line(label@, n as nat),
{
    push_str_bytes(v, label);
    push_u64_dec(v, n);
    push_str_bytes(v, "\n");
    proof {
        assert(v@ =~= old(v)@ + labeled_u64_line(label@, n as nat));
    }
}

/// Appends a label, a boolean, and optionally a newline.
fn push_labeled_bool(v: &mut Vec<u8>, label: &str, b: bool, nl: bool)
    ensures
        final(v)@ == old(v)@ + (if nl {
            labeled_bool_line(label@, b)
        } else {
            labeled_bool_end(label@, b)
        }),
{
    push_str_bytes(v, label);
    push_bool(v, b);
    if nl {
        push_str_bytes(v, "\n");
        proof {
            assert(v@ =~= old(v)@ + labeled_bool_line(label@, b));
        }
    } else {
        proof {
            assert(v@ =~= old(v)@ + labeled_bool_end(label@, b));
        }
    }
}

/// Renders the unix permission block.
fn render_unix_block(u: &UnixMetadata) -> (b: Vec<u8>)
    ensures
        b@ == unix_block(*u),
{
    let mut v: Vec<u8> = Vec::new();
    push_labeled_bool(&mut v, "Owner Read: ", u.owner_read, true);
    proof {
        assert(v@ =~= labeled_bool_line("Owner Read: "@, u.owner_read));
    }
    push_labeled_bool(&mut v, "Owner Write: ", u.owner_write, true);
    push_labeled_bool(&mut v, "Owner Exec: ", u.owner_exec, true);
    push_labeled_bool(&mut v, "Group Read: ", u.group_read, true);
    push_labeled_bool(&mut v, "Group Write: ", u.group_write, true);
    push_labeled_bool(&mut v, "Group Exec: ", u.group_exec, true);
    push_labeled_bool(&mut v, "Other Read: ", u.other_read, true);
    push_labeled_bool(&mut v, "Other Write: ", u.other_write, true);
    push_labeled_bool(&mut v, "Other Exec: ", u.other_exec, false);
    v
}

/// Renders the windows attribute block.
fn render_windows_block(w: &WindowsMetadata) -> (b: Vec<u8>)
    ensures
        b@ == windows_block(*w),
{
    let mut v: Vec<u8> = Vec::new();
    push_labeled_bool(&mut v, "Archive: ", w.archive, true);
    proof {
        assert(v@ =~= labeled_bool_line("Archive: "@, w.archive));
    }
    push_labeled_bool(&mut v, "Compressed: ", w.compressed, true);
    push_labeled_bool(&mut v, "Encrypted: ", w.encrypted, true);
    push_labeled_bool(&mut v, "Hidden: ", w.hidden, true);
    push_labeled_bool(&mut v, "Integrity Stream: ", w.integrity_stream, true);
    push_labeled_bool(&mut v, "Normal: ", w.normal, true);
    push_labeled_bool(&mut v, "Not Content Indexed: ", w.not_content_indexed, true);
    push_labeled_bool(&mut v, "No Scrub Data: ", w.no_scrub_data, true);
    push_labeled_bool(&mut v, "Offline: ", w.offline, true);
    push_labeled_bool(&mut v, "Recall on Data Access: ", w.recall_on_data_access, true);
    push_labeled_bool(&mut v, "Recall on Open: ", w.recall_on_open, true);
    push_labeled_bool(&mut v, "Reparse Point: ", w.reparse_point, true);
    push_labeled_bool(&mut v, "Sparse File: ", w.sparse_file, true);
    push_labeled_bool(&mut v, "System: ", w.system, true);
    push_labeled_bool(&mut v, "Temporary: ", w.temporary, false);
    v
}

/// Renders the metadata of a path.
fn render_metadata(m: &Metadata) -> (v: Vec<u8>)
    ensures
        v@ == metadata_text(*m),
{
    let mut v: Vec<u8> = Vec::new();
    match &m.canonicalized_path {
        Option::Some(p) => {
            push_str_bytes(&mut v, "Canonicalized Path: ");
            push_json_string(&mut v, p.as_str());
            push_str_bytes(&mut v, "\n");
        },
        Option::None => {},
    }
    proof {
        assert(v@ =~= metadata_canon_part(*m));
    }
    push_labeled_str(&mut v, "Type: ", m.file_type.display_str());
    push_labeled_u64(&mut v, "Len: ", m.len);
    push_labeled_bool(&mut v, "Readonly: ", m.readonly, true);
    push_labeled_u64(
        &mut v,
        "Created: ",
        match m.created {
            Option::Some(t) => t,
            Option::None => 0,
        },
    );
    push_labeled_u64(
        &mut v,
        "Last Accessed: ",
        match m.accessed {
            Option::Some(t) => t,
            Option::None => 0,
        },
    );
    push_labeled_u64(
        &mut v,
        "Last Modified: ",
        match m.modified {
            Option::Some(t) => t,
            Option::None => 0,
        },
    );
    let ghost with_core = v@;
    match &m.unix {
        Option::Some(u) => {
            let mut b = render_unix_block(u);
            v.append(&mut b);
        },
        Option::None => {},
    }
    proof {
        assert(v@ =~= with_core + metadata_unix_part(*m));
    }
    let ghost with_unix = v@;
    match &m.windows {
        Option::Some(w) => {
            let mut b = render_windows_block(w);
            v.append(&mut b);
        },
        Option::None => {},
    }
    proof {
        assert(v@ =~= with_unix + metadata_windows_part(*m));
    }
    let ghost with_windows = v@;
    if m.unix.is_none() && m.windows.is_none() {
        push_str_bytes(&mut v, "\n");
    }
    proof {
        assert(v@ =~= with_windows + metadata_tail(*m));
        assert(v@ =~= metadata_text(*m));
    }
    v
}

/// Renders the host facts.
fn render_system_info(si: &SystemInfo) -> (v: Vec<u8>)
    ensures
        v@ == system_info_text(*si),
{
    let mut v: Vec<u8> = Vec::new();
    push_labeled_json(&mut v, "Family: ", si.family.as_str(), true);
    proof {
        assert(v@ =~= labeled_json_line("Family: "@, si.family@));
    }
    push_labeled_json(&mut v, "Operating System: ", si.os.as_str(), true);
    push_labeled_json(&mut v, "Arch: ", si.arch.as_str(), true);
    push_labeled_json(&mut v, "Cwd: ", si.current_dir.as_str(), true);
    push_labeled_json(&mut v, "Path Sep: ", si.main_separator.as_str(), true);
    push_labeled_json(&mut v, "Username: ", si.username.as_str(), true);
    push_labeled_json(&mut v, "Shell: ", si.shell.as_str(), false);
    v
}

/// Renders the line reporting a failed process.
fn render_proc_failed(id: u64, code: Option<i32>) -> (v: Vec<u8>)
    ensures
        v@ == proc_done_text(id, code),
{
    let mut v: Vec<u8> = Vec::new();
    push_str_bytes(&mut v, "Proc ");
    push_u64_dec(&mut v, id);
    match code {
        Option::Some(c) => {
            push_str_bytes(&mut v, " failed with code ");
            push_i32_dec(&mut v, c);
        },
        Option::None => {
            push_str_bytes(&mut v, " failed");
        },
    }
    proof {
        assert(v@ =~= proc_done_text(id, code));
    }
    v
}

/// Renders one response for the shell, updating the search grouping state as
/// the response demands.
pub fn format_shell(state: &mut FormatterState, data: ResponseData) -> (out: Output)
    ensures
        out@ == shell_rep(old(state).last_view(), data),
        final(state).last_view() == shell_next_last(old(state).last_view(), data),
{
    match data {
        ResponseData::Okay => Output::Silent,
        ResponseData::Error { kind, description } => {
            let mut v: Vec<u8> = Vec::new();
            push_str_bytes(&mut v, description.as_str());
            Output::StderrLine(v)
        },
        ResponseData::Blob { data } => Output::StdoutLine(data),
        ResponseData::Text { data } => {
            let mut v: Vec<u8> = Vec::new();
            push_str_bytes(&mut v, data.as_str());
            Output::StdoutLine(v)
        },
        ResponseData::DirEntries { entries, errors } => Output::Stdout(
            render_dir_entries(&entries),
        ),
        ResponseData::Changed(c) => Output::StdoutLine(render_changed(&c)),
        ResponseData::Exists { value } => {
            let mut v: Vec<u8> = Vec::new();
            push_bool(&mut v, value);
            Output::StdoutLine(v)
        },
        ResponseData::Metadata(m) => Output::StdoutLine(render_metadata(&m)),
        ResponseData::SearchStarted { id } => {
            let mut v: Vec<u8> = Vec::new();
            push_str_bytes(&mut v, "Query ");
            push_u64_dec(&mut v, id);
            push_str_bytes(&mut v, " started");
            proof {
                assert(v@ =~= ("Query ").spec_bytes() + dec_rep(id as nat) + (
                " started").spec_bytes());
            }
            Output::StdoutLine(v)
        },
        ResponseData::SearchResults { id, matches } => format_search_results(state, &matches),
        ResponseData::SearchDone { id } => Output::Silent,
        ResponseData::ProcSpawned { id } => Output::Silent,
        ResponseData::ProcStdout { id, data } => Output::Stdout(data),
        ResponseData::ProcStderr { id, data } => Output::Stderr(data),
        ResponseData::ProcDone { id, success, code } => {
            if success {
                Output::Silent
            } else {
                Output::StderrLine(render_proc_failed(id, code))
            }
        },
        ResponseData::SystemInfo(si) => Output::StdoutLine(render_system_info(&si)),
        ResponseData::Capabilities { supported } => Output::StdoutLine(
            render_capabilities(supported),
        ),
    }
}
/// Renders a batch of search results, grouping matches by path and keeping
/// the last-reported path in `state`.
#[verifier::rlimit(100)]
#[verifier::spinoff_prover]
fn format_search_results(state: &mut FormatterState, matches: &Vec<SearchQueryMatch>) -> (out:
    Output)
    ensures
        out@ == search_results_rep(old(state).last_view(), matches@),
        final(state).last_view() == search_results_next(old(state).last_view(), matches@),
{
    let ghost ms = matches@;
    // First pass: the distinct paths in order of first appearance, and
    // whether any match targets a path name.
    let mut paths: Vec<String> = Vec::new();
    let mut targeting_paths: bool = false;
    let n: usize = matches.len();
    proof {
        assert(ms.skip(0) =~= ms);
        assert(paths.deep_view() =~= Seq::<Seq<char>>::empty());
        assert(ms.take(0) =~= Seq::<SearchQueryMatch>::empty());
        assert(!has_path_match(ms.take(0)));
    }
    let mut i: usize = 0;
    while i < n
        invariant
            n == ms.len(),
            ms == matches@,
            i <= n,
            targeting_paths == has_path_match(ms.take(i as int)),
            unique_paths(ms, Seq::empty()) == unique_paths(ms.skip(i as int), paths.deep_view()),
        decreases n - i,
    {
        let ghost pre_paths = paths.deep_view();
        let p: &String = match &matches[i] {
            SearchQueryMatch::Path(pm) => &pm.path,
            SearchQueryMatch::Contents(cm) => &cm.path,
        };
        if matches!(&matches[i], SearchQueryMatch::Path(_)) {
            targeting_paths = true;
        }
        proof {
            assert(ms.take(i + 1) =~= ms.take(i as int).push(ms[i as int]));
            assert(has_path_match(ms.take(i + 1)) == (has_path_match(ms.take(i as int))
                || is_path_match(ms[i as int]))) by {
                let t = ms.take(i + 1);
                if has_path_match(ms.take(i as int)) {
                    let k = choose|k: int|
                        0 <= k < ms.take(i as int).len() && is_path_match(ms.take(i as int)[k]);
                    assert(is_path_match(t[k]));
                }
                if is_path_match(ms[i as int]) {
                    assert(is_path_match(t[i as int]));
                }
                if has_path_match(t) {
                    let k = choose|k: int| 0 <= k < t.len() && is_path_match(t[k]);
                    if k < i {
                        assert(is_path_match(ms.take(i as int)[k]));
                    }
                }
            }
        }
        if !contains_string(&paths, p) {
            paths.push(p.clone());
        }
        proof {
            let tail = ms.skip(i as int);
            assert(tail[0] == ms[i as int]);
            assert(tail.drop_first() =~= ms.skip(i + 1));
            assert(match_path_view(ms[i as int]) == p@);
            if pre_paths.contains(p@) {
                assert(paths.deep_view() =~= pre_paths);
            } else {
                assert(paths.deep_view() =~= pre_paths.push(p@));
            }
            assert(unique_paths(tail, pre_paths) == unique_paths(
                ms.skip(i + 1),
                paths.deep_view(),
            ));
        }
        i = i + 1;
    }
    proof {
        assert(ms.take(n as int) =~= ms);
        assert(ms.skip(n as int) =~= Seq::<SearchQueryMatch>::empty());
        assert(unique_paths(ms, Seq::empty()) == paths.deep_view());
    }
    // Second pass: render each group in order.
    let ghost last0 = old(state).last_view();
    let mut out: Vec<u8> = Vec::new();
    let g_total: usize = paths.len();
    proof {
        assert(paths.deep_view().skip(0) =~= paths.deep_view());
    }
    let mut g: usize = 0;
    while g < g_total
        invariant
            n == ms.len(),
            g_total == paths@.len(),
            paths@.len() == paths.deep_view().len(),
            ms == matches@,
            g <= g_total,
            forall|k: int| 0 <= k < paths@.len() ==> paths.deep_view()[k] == paths@[k]@,
            targeting_paths == has_path_match(ms),
            search_text(paths.deep_view(), ms, last0, targeting_paths) == out@ + search_text(
                paths.deep_view().skip(g as int),
                ms,
                state.last_view(),
                targeting_paths,
            ),
            search_next_last(paths.deep_view(), last0) == search_next_last(
                paths.deep_view().skip(g as int),
                state.last_view(),
            ),
        decreases g_total - g,
    {
        let ghost rem = paths.deep_view().skip(g as int);
        let ghost pre_out = out@;
        let ghost pre_last = state.last_view();
        let p: &String = &paths[g];
        proof {
            assert(rem[0] == p@);
            assert(rem.drop_first() =~= paths.deep_view().skip(g + 1));
        }
        let same: bool = match &state.last_searched_path {
            Option::Some(lp) => lp.eq(p),
            Option::None => false,
        };
        if !same {
            if state.last_searched_path.is_some() && !targeting_paths {
                push_str_bytes(&mut out, "\n");
            }
            push_str_bytes(&mut out, p.as_str());
            push_str_bytes(&mut out, "\n");
        }
        let ghost header = (
        if pre_last == Option::Some(p@) {
            Seq::<u8>::empty()
        } else {
            (if pre_last is Some && !targeting_paths {
                ("\n").spec_bytes()
            } else {
                Seq::<u8>::empty()
            }) + encode_utf8(p@) + ("\n").spec_bytes()
        });
        proof {
            assert(out@ =~= pre_out + header);
        }
        let ghost header_done = out@;
        proof {
            assert(ms.take(0) =~= Seq::<SearchQueryMatch>::empty());
            assert(out@ =~= header_done + lines_text(ms.take(0), p@));
        }
        // The content matches of this path, in batch order.
        let mut j: usize = 0;
        while j < n
            invariant
                n == ms.len(),
                ms == matches@,
                j <= n,
                out@ == header_done + lines_text(ms.take(j as int), p@),
            decreases n - j,
        {
            match &matches[j] {
                SearchQueryMatch::Contents(cm) => {
                    if cm.path.eq(p) {
                        push_u64_dec(&mut out, cm.line_number);
                        push_str_bytes(&mut out, ":");
                        push_trimmed_end(&mut out, cm.lines.as_str());
                        push_str_bytes(&mut out, "\n");
                    }
                },
                SearchQueryMatch::Path(_) => {},
            }
            proof {
                assert(ms.take(j + 1) =~= ms.take(j as int).push(ms[j as int]));
                lemma_lines_text_push(ms.take(j as int), ms[j as int], p@);
                assert(out@ =~= header_done + lines_text(ms.take(j + 1), p@));
            }
            j = j + 1;
        }
        proof {
            assert(ms.take(n as int) =~= ms);
        }
        state.last_searched_path = Option::Some(p.clone());
        proof {
            let full = paths.deep_view();
            assert(search_text(rem, ms, pre_last, targeting_paths) == header + lines_text(ms, p@)
                + search_text(full.skip(g + 1), ms, Option::Some(p@), targeting_paths));
            assert(out@ =~= pre_out + header + lines_text(ms, p@));
            assert(state.last_view() == Option::Some(p@));
            if full.skip(g + 1).len() == 0 {
                assert(rem.last() == p@);
            } else {
                assert(rem.last() == full.skip(g + 1).last());
            }
        }
        g = g + 1;
    }
    proof {
        let full = paths.deep_view();
        assert(full.skip(g_total as int) =~= Seq::<Seq<char>>::empty());
        assert(search_text(full.skip(g_total as int), ms, state.last_view(), targeting_paths)
            == Seq::<u8>::empty());
        assert(search_text(full, ms, last0, targeting_paths) =~= out@);
        assert(search_next_last(full, last0) == state.last_view());
    }
    if out.is_empty() {
        Output::Silent
    } else {
        Output::Stdout(out)
    }
}

/// Splitting one element off the back of the batch splits its rendered lines.
proof fn lemma_lines_text_push(ms: Seq<SearchQueryMatch>, m: SearchQueryMatch, p: Seq<char>)
    ensures
        lines_text(ms.push(m), p) == lines_text(ms, p) + (match m {
            SearchQueryMatch::Contents(c) => if c.path@ == p {
                search_line_rep(c.line_number, c.lines@) + ("\n").spec_bytes()
            } else {
                Seq::<u8>::empty()
            },
            SearchQueryMatch::Path(_) => Seq::<u8>::empty(),
        }),
    decreases ms.len(),
{
    if ms.len() == 0 {
        assert(ms.push(m)[0] == m);
        assert(ms.push(m).drop_first() =~= Seq::<SearchQueryMatch>::empty());
        assert(lines_text(Seq::<SearchQueryMatch>::empty(), p) == Seq::<u8>::empty());
        assert(lines_text(ms, p) == Seq::<u8>::empty());
        assert(lines_text(ms.push(m), p) =~= lines_text(ms, p) + (match m {
            SearchQueryMatch::Contents(c) => if c.path@ == p {
                search_line_rep(c.line_number, c.lines@) + ("\n").spec_bytes()
            } else {
                Seq::<u8>::empty()
            },
            SearchQueryMatch::Path(_) => Seq::<u8>::empty(),
        }));
    } else {
        assert(ms.push(m)[0] == ms[0]);
        assert(ms.push(m).drop_first() =~= ms.drop_first().push(m));
        lemma_lines_text_push(ms.drop_first(), m, p);
        assert(lines_text(ms.push(m), p) =~= lines_text(ms, p) + (match m {
            SearchQueryMatch::Contents(c) => if c.path@ == p {
                search_line_rep(c.line_number, c.lines@) + ("\n").spec_bytes()
            } else {
                Seq::<u8>::empty()
            },
            SearchQueryMatch::Path(_) => Seq::<u8>::empty(),
        }));
    }
}

/// Why a response could not be rendered.
#[derive(Copy, Clone, Debug, PartialEq, Eq, Structural)]
pub enum FormatError {
    /// The shell mode renders single responses only.
    InvalidData,
}

/// Renders decoded responses as bytes for one of the output channels,
/// keeping the state the shell mode needs between responses.
#[derive(Clone, Debug, PartialEq, Eq)]
pub struct Formatter {
    format: Format,
    state: FormatterState,
}

impl Formatter {
    /// The chosen rendering mode.
    pub closed spec fn format_spec(self) -> Format {
        self.format
    }

    /// The last path the shell mode reported while grouping search results.
    pub closed spec fn last_view(self) -> Option<Seq<char>> {
        self.state.last_view()
    }

    /// Creates a new formatter for the given mode.
    pub fn new(format: Format) -> (r: Formatter)
        ensures
            r.format_spec() == format,
            r.last_view() is None,
    {
        Formatter { format, state: FormatterState::new() }
    }

    /// Creates a formatter in the shell mode.
    pub fn shell() -> (r: Formatter)
        ensures
            r.format_spec() == Format::Shell,
            r.last_view() is None,
    {
        Formatter::new(Format::Shell)
    }

    /// Renders one response envelope.  The JSON mode serializes the whole
    /// envelope losslessly, one line per envelope; the shell mode renders the
    /// single payload and rejects batches.
    pub fn render(&mut self, res: Envelope<Msg<ResponseData>>) -> (r: Result<Output, FormatError>)
        ensures
            final(self).format_spec() == old(self).format_spec(),
            old(self).format_spec() == Format::Json ==> {
                &&& r matches Result::Ok(o) && o@ == OutputRep::StdoutLine(envelope_json(res))
                &&& final(self).last_view() == old(self).last_view()
            },
            old(self).format_spec() == Format::Shell && res.payload is Batch ==> {
                &&& r == Result::<Output, FormatError>::Err(FormatError::InvalidData)
                &&& final(self).last_view() == old(self).last_view()
            },
            old(self).format_spec() == Format::Shell && res.payload is Single ==> {
                &&& r matches Result::Ok(o) && o@ == shell_rep(
                    old(self).last_view(),
                    res.payload->Single_0,
                )
                &&& final(self).last_view() == shell_next_last(
                    old(self).last_view(),
                    res.payload->Single_0,
                )
            },
    {
        match self.format {
            Format::Json => {
                let bytes = render_envelope_json(&res);
                Ok(Output::StdoutLine(bytes))
            },
            Format::Shell => {
                if res.payload.is_batch() {
                    return Err(FormatError::InvalidData);
                }
                match res.payload.into_single() {
                    Option::Some(d) => Ok(format_shell(&mut self.state, d)),
                    Option::None => Err(FormatError::InvalidData),
                }
            },
        }
    }
}

} // verus!

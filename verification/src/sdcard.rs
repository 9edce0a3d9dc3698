//! Printing from the memory card: which files are G-code, the order they
//! are listed in, line framing and the print job state machine.
//!
//! Mounting the card and reading files are done by the caller; a print job
//! pulls its lines from a [`LineSource`] the caller provides.
use crate::error::AppResult;
use crate::gcode::parser::trim_end_crlf;
use crate::text::{chars_of, find_last, last_index, lower, to_ascii_lower};
use vstd::prelude::*;

verus! {

/// Extension of a file name as `Path::extension` sees it: the text after
/// the last `.`, unless that dot is the first character (a hidden file
/// without extension) or the name is `..`.
pub open spec fn file_extension(name: Seq<char>) -> Option<Seq<char>> {
    match last_index(name, '.') {
        None => None,
        Some(k) => if k == 0 || name == seq!['.', '.'] {
            None
        } else {
            Some(name.subrange(k + 1, name.len() as int))
        },
    }
}

/// Whether a file name has a G-code extension (`gcode` or `gco`, in any
/// ASCII letter case).
pub open spec fn is_gcode_name(name: Seq<char>) -> bool {
    match file_extension(name) {
        None => false,
        Some(ext) => lower(ext) == "gcode"@ || lower(ext) == "gco"@,
    }
}

/// Extension law: a name made of a non-empty stem, a `.` and a text
/// without `.` has that text as its extension, whatever dots the stem
/// holds (the only exception is `..`, a stem `.` with an empty extension);
/// so every such stem followed by `.gcode`, in any letter case, is a G-code
/// file name.
pub proof fn lemma_extension_after_last_dot(stem: Seq<char>, ext: Seq<char>)
    requires
        stem.len() > 0,
        forall|i: int| 0 <= i < ext.len() ==> ext[i] != '.',
        !(stem == seq!['.'] && ext.len() == 0),
    ensures
        file_extension(stem + seq!['.'] + ext) == Some(ext),
        lower(ext) == "gcode"@ ==> is_gcode_name(stem + seq!['.'] + ext),
        is_gcode_name(stem + ".gcode"@),
{
    let name = stem + seq!['.'] + ext;
    let head = stem + seq!['.'];
    crate::gcode::parser::lemma_last_index_append(head, ext, '.');
    assert(head.last() == '.');
    assert(last_index(head, '.') == Some(stem.len() as int));
    assert(name.subrange(stem.len() as int + 1, name.len() as int) =~= ext);
    if name == seq!['.', '.'] {
        assert(name.len() == 2);
        assert(stem.len() == 1 && ext.len() == 0);
        assert(stem =~= seq!['.']) by {
            assert(stem[0] == name[0]);
        }
    }
    reveal_strlit(".gcode");
    reveal_strlit("gcode");
    let g = "gcode"@;
    assert(".gcode"@ =~= seq!['.'] + g);
    assert(stem + ".gcode"@ =~= stem + seq!['.'] + g);
    assert forall|i: int| 0 <= i < g.len() implies g[i] != '.' by {}
    assert(lower(g) =~= g);
    let name2 = stem + seq!['.'] + g;
    crate::gcode::parser::lemma_last_index_append(head, g, '.');
    assert(name2.subrange(stem.len() as int + 1, name2.len() as int) =~= g);
    assert(name2 != seq!['.', '.']) by {
        assert(name2.len() > 2);
    }
}

/// Whether `s` equals `expected` ignoring ASCII letter case; `expected` is
/// in lower case.
fn eq_ignore_ascii_case(s: &[char], lo: usize, expected: &[char]) -> (b: bool)
    requires
        lo <= s@.len(),
    ensures
        b == (lower(s@.subrange(lo as int, s@.len() as int)) == expected@),
{
    let n = s.len() - lo;
    if n != expected.len() {
        proof {
            assert(lower(s@.subrange(lo as int, s@.len() as int)).len() == n);
        }
        return false;
    }
    let mut i: usize = 0;
    while i < n
        invariant
            n == s@.len() - lo,
            n == expected@.len(),
            lo <= s@.len(),
            s@.len() <= usize::MAX,
            i <= n,
            forall|j: int| 0 <= j < i ==> ascii_lower_at(s@, lo as int + j) == expected@[j],
        decreases n - i,
    {
        if to_ascii_lower(s[lo + i]) != expected[i] {
            proof {
                assert(lower(s@.subrange(lo as int, s@.len() as int))[i as int] != expected@[i as int]);
            }
            return false;
        }
        i += 1;
    }
    proof {
        assert(lower(s@.subrange(lo as int, s@.len() as int)) =~= expected@) by {
            assert forall|j: int| 0 <= j < n implies lower(s@.subrange(lo as int, s@.len() as int))[j]
                == expected@[j] by {
                assert(ascii_lower_at(s@, lo as int + j) == expected@[j]);
            }
        }
    }
    true
}

/// ASCII lower case of the character at `i`.
spec fn ascii_lower_at(s: Seq<char>, i: int) -> char {
    crate::text::ascii_lower(s[i])
}

/// Whether a file name has a G-code extension (`gcode` or `gco`, any ASCII
/// letter case).
pub fn is_gcode_file_name(name: &str) -> (b: bool)
    ensures
        b == is_gcode_name(name@),
{
    let chars = chars_of(name);
    match find_last(chars.as_slice(), '.') {
        None => false,
        Some(k) => {
            if k == 0 || (chars.len() == 2 && chars[0] == '.' && chars[1] == '.') {
                proof {
                    if k != 0 {
                        assert(chars@ =~= seq!['.', '.']);
                    }
                }
                return false;
            }
            proof {
                assert(chars@ != seq!['.', '.']) by {
                    if chars@ =~= seq!['.', '.'] {
                        assert(chars@.len() == 2);
                    }
                }
            }
            let gcode: [char; 5] = ['g', 'c', 'o', 'd', 'e'];
            let gco: [char; 3] = ['g', 'c', 'o'];
            proof {
                reveal_strlit("gcode");
                reveal_strlit("gco");
                assert(gcode@ =~= "gcode"@);
                assert(gco@ =~= "gco"@);
            }
            eq_ignore_ascii_case(chars.as_slice(), k + 1, gcode.as_slice()) || eq_ignore_ascii_case(
                chars.as_slice(),
                k + 1,
                gco.as_slice(),
            )
        },
    }
}

/// Removes the trailing `\n` and `\r` characters of a line read from a
/// file.
pub fn strip_line_ending(line: String) -> (s: String)
    ensures
        s@ == trim_end_crlf(line@),
{
    let chars = chars_of(line.as_str());
    let mut n: usize = chars.len();
    assert(chars@.take(n as int) =~= chars@);
    while n > 0 && (chars[n - 1] == '\n' || chars[n - 1] == '\r')
        invariant
            n <= chars@.len(),
            trim_end_crlf(chars@) == trim_end_crlf(chars@.take(n as int)),
        decreases n,
    {
        assert(chars@.take(n as int).drop_last() =~= chars@.take(n - 1));
        n -= 1;
    }
    let kept = crate::text::copy_range(chars.as_slice(), 0, n);
    assert(kept@ =~= chars@.take(n as int));
    crate::text::string_of(kept.as_slice())
}

/// `a` sorts before `b` or equals it, in the order `str` and `String`
/// compare in: lexicographic by code point (the same as UTF-8 byte order).
pub open spec fn text_le(a: Seq<char>, b: Seq<char>) -> bool
    decreases a.len(),
{
    if a.len() == 0 {
        true
    } else if b.len() == 0 {
        false
    } else if (a[0] as int) < (b[0] as int) {
        true
    } else if (a[0] as int) > (b[0] as int) {
        false
    } else {
        text_le(a.drop_first(), b.drop_first())
    }
}

/// Any two texts compare one way or the other.
pub proof fn lemma_text_le_total(a: Seq<char>, b: Seq<char>)
    ensures
        text_le(a, b) || text_le(b, a),
    decreases a.len(),
{
    if a.len() > 0 && b.len() > 0 && a[0] == b[0] {
        lemma_text_le_total(a.drop_first(), b.drop_first());
    }
}

/// The text order is transitive.
pub proof fn lemma_text_le_transitive(a: Seq<char>, b: Seq<char>, c: Seq<char>)
    requires
        text_le(a, b),
        text_le(b, c),
    ensures
        text_le(a, c),
    decreases a.len(),
{
    if a.len() > 0 && b.len() > 0 && c.len() > 0 && a[0] == b[0] && b[0] == c[0] {
        lemma_text_le_transitive(a.drop_first(), b.drop_first(), c.drop_first());
    }
}

/// Executable form of [`text_le`].
fn chars_le(a: &[char], b: &[char]) -> (r: bool)
    ensures
        r == text_le(a@, b@),
{
    let mut i: usize = 0;
    assert(a@.skip(0) =~= a@);
    assert(b@.skip(0) =~= b@);
    while i < a.len() && i < b.len() && a[i] == b[i]
        invariant
            i <= a@.len(),
            i <= b@.len(),
            text_le(a@, b@) == text_le(a@.skip(i as int), b@.skip(i as int)),
        decreases a@.len() - i,
    {
        assert(a@.skip(i as int).drop_first() =~= a@.skip(i + 1));
        assert(b@.skip(i as int).drop_first() =~= b@.skip(i + 1));
        i += 1;
    }
    if i == a.len() {
        true
    } else if i == b.len() {
        false
    } else {
        assert(a@.skip(i as int)[0] == a@[i as int] && b@.skip(i as int)[0] == b@[i as int]);
        a[i] < b[i]
    }
}

/// Character views of a sequence of strings.
pub open spec fn texts(s: Seq<String>) -> Seq<Seq<char>> {
    s.map_values(|x: String| x@)
}

/// Every earlier text sorts before or equals every later one.
pub open spec fn sorted_texts(s: Seq<Seq<char>>) -> bool {
    forall|i: int, j: int| 0 <= i < j < s.len() ==> text_le(#[trigger] s[i], #[trigger] s[j])
}

/// Inserts `name` into the sorted `files` after every entry that sorts
/// before or equals it.
fn insert_sorted(files: &mut Vec<String>, name: String)
    requires
        sorted_texts(texts(old(files)@)),
    ensures
        sorted_texts(texts(final(files)@)),
        texts(final(files)@).to_multiset() == texts(old(files)@).to_multiset().insert(name@),
{
    let key = chars_of(name.as_str());
    let mut p: usize = 0;
    while p < files.len() && chars_le(chars_of(files[p].as_str()).as_slice(), key.as_slice())
        invariant
            p <= files@.len(),
            key@ == name@,
            files@ == old(files)@,
            sorted_texts(texts(files@)),
            forall|i: int| 0 <= i < p ==> text_le(#[trigger] texts(files@)[i], name@),
        decreases files@.len() - p,
    {
        p += 1;
    }
    let ghost before = texts(files@);
    proof {
        if p < files@.len() {
            assert(!text_le(before[p as int], name@));
            lemma_text_le_total(before[p as int], name@);
            assert forall|j: int| p <= j < before.len() implies text_le(name@, #[trigger] before[j]) by {
                if j > p {
                    assert(text_le(before[p as int], before[j]));
                    lemma_text_le_transitive(name@, before[p as int], before[j]);
                }
            }
        }
    }
    files.insert(p, name);
    proof {
        let after = texts(files@);
        assert(after =~= before.insert(p as int, name@));
        vstd::seq_lib::to_multiset_insert(before, p as int, name@);
        assert forall|i: int, j: int| 0 <= i < j < after.len() implies text_le(
            #[trigger] after[i],
            #[trigger] after[j],
        ) by {
            if j < p {
            } else if j == p {
            } else if i < p {
                assert(after[j] == before[j - 1]);
                if j - 1 > i {
                    assert(text_le(before[i], before[j - 1]));
                } else {
                    assert(text_le(before[i], before[j - 1]));
                }
            } else if i == p {
                assert(after[j] == before[j - 1]);
            } else {
                assert(after[i] == before[i - 1]);
                assert(after[j] == before[j - 1]);
            }
        }
    }
}

/// Every earlier text sorts strictly before every later one.
pub open spec fn strictly_sorted_texts(s: Seq<Seq<char>>) -> bool {
    forall|i: int, j: int|
        0 <= i < j < s.len() ==> text_le(#[trigger] s[i], #[trigger] s[j]) && s[i] != s[j]
}

/// Pushing a text the sequence does not hold keeps it free of duplicates.
proof fn lemma_push_new_no_duplicates(s: Seq<Seq<char>>, x: Seq<char>)
    requires
        s.no_duplicates(),
        !s.contains(x),
    ensures
        s.push(x).no_duplicates(),
{
    assert forall|i: int, j: int|
        0 <= i < s.push(x).len() && 0 <= j < s.push(x).len() && i != j implies s.push(x)[i]
        != s.push(x)[j] by {
        if i == s.len() {
            assert(s[j] == s.push(x)[j]);
        } else if j == s.len() {
            assert(s[i] == s.push(x)[i]);
        }
    }
}

/// The G-code files among the names of a directory listing, sorted by
/// name: a name is listed exactly when it is among the names and has a
/// G-code extension, as often as it occurs there; when the names are
/// distinct (as in a directory) the listing is strictly ascending.
pub fn list_gcode_files(names: &Vec<String>) -> (files: Vec<String>)
    ensures
        sorted_texts(texts(files@)),
        texts(files@).to_multiset() == texts(names@).filter(|t: Seq<char>| is_gcode_name(t)).to_multiset(),
        texts(names@).no_duplicates() ==> strictly_sorted_texts(texts(files@)),
        forall|t: Seq<char>|
            #[trigger] texts(files@).contains(t) <==> texts(names@).contains(t) && is_gcode_name(t),
{
    let mut files: Vec<String> = Vec::new();
    let mut i: usize = 0;
    let ghost pred = |t: Seq<char>| is_gcode_name(t);
    proof {
        assert(texts(names@.take(0)) =~= Seq::<Seq<char>>::empty());
        assert(Seq::<Seq<char>>::empty().filter(pred) =~= Seq::<Seq<char>>::empty()) by {
            reveal(Seq::filter);
        }
        assert(texts(files@) =~= Seq::<Seq<char>>::empty());
        assert(Seq::<Seq<char>>::empty().no_duplicates());
    }
    while i < names.len()
        invariant
            i <= names@.len(),
            pred == (|t: Seq<char>| is_gcode_name(t)),
            sorted_texts(texts(files@)),
            texts(files@).to_multiset() == texts(names@.take(i as int)).filter(pred).to_multiset(),
            texts(names@).no_duplicates() ==> texts(names@.take(i as int)).filter(
                pred,
            ).no_duplicates(),
        decreases names@.len() - i,
    {
        proof {
            let before = texts(names@.take(i as int));
            let x = names@[i as int]@;
            assert(texts(names@.take(i + 1)) =~= before.push(x));
            before.lemma_filter_push(x, pred);
            if texts(names@).no_duplicates() && pred(x) {
                assert(!before.filter(pred).contains(x)) by {
                    if before.filter(pred).contains(x) {
                        before.lemma_filter_contains_rev(pred, x);
                        let k = choose|k: int| 0 <= k < before.len() && before[k] == x;
                        assert(texts(names@)[k] == texts(names@)[i as int]);
                    }
                }
                lemma_push_new_no_duplicates(before.filter(pred), x);
            }
        }
        if is_gcode_file_name(names[i].as_str()) {
            let name = names[i].clone();
            proof {
                vstd::seq_lib::to_multiset_build(
                    texts(names@.take(i as int)).filter(pred),
                    names@[i as int]@,
                );
            }
            insert_sorted(&mut files, name);
        }
        i += 1;
    }
    assert(names@.take(names@.len() as int) =~= names@);
    proof {
        if texts(names@).no_duplicates() {
            let filtered = texts(names@).filter(pred);
            filtered.lemma_multiset_has_no_duplicates();
            texts(files@).lemma_multiset_has_no_duplicates_conv();
            assert forall|i: int, j: int| 0 <= i < j < texts(files@).len() implies text_le(
                #[trigger] texts(files@)[i],
                #[trigger] texts(files@)[j],
            ) && texts(files@)[i] != texts(files@)[j] by {}
        }
        let all = texts(names@);
        let filtered = all.filter(pred);
        assert forall|t: Seq<char>| #[trigger]
            texts(files@).contains(t) <==> all.contains(t) && is_gcode_name(t) by {
            vstd::seq_lib::to_multiset_contains(texts(files@), t);
            vstd::seq_lib::to_multiset_contains(filtered, t);
            if filtered.contains(t) {
                all.lemma_filter_contains_rev(pred, t);
                let k = choose|k: int| 0 <= k < filtered.len() && filtered[k] == t;
                all.lemma_filter_pred(pred, k);
            }
            if all.contains(t) && is_gcode_name(t) {
                let k = choose|k: int| 0 <= k < all.len() && all[k] == t;
                all.lemma_filter_contains(pred, k);
            }
        }
    }
    files
}

/// Where a print job takes its lines from: the next line of the file
/// without its line ending, or `None` at the end of the file.
pub trait LineSource {
    /// The next line, or `None` at the end.
    fn next_line(&mut self) -> AppResult<Option<String>>;
}

/// State of a print from the memory card.
#[derive(Debug, Clone, Copy, PartialEq, Eq, Structural)]
pub enum PrintJobState {
    /// No print.
    Idle,
    /// Lines are handed out.
    Printing,
    /// Paused by the user: no line is handed out until resumed.
    Paused,
    /// Every line of the file was handed out.
    Completed,
    /// Aborted by the user; final.
    Aborted,
}

/// State after a pause request: only a running print pauses.
pub open spec fn paused_state(s: PrintJobState) -> PrintJobState {
    if s == PrintJobState::Printing {
        PrintJobState::Paused
    } else {
        s
    }
}

/// State after a resume request: only a paused print resumes.
pub open spec fn resumed_state(s: PrintJobState) -> PrintJobState {
    if s == PrintJobState::Paused {
        PrintJobState::Printing
    } else {
        s
    }
}

/// A print from the memory card: hands out the lines of its file one by
/// one while it is printing.
pub struct PrintJob<R: LineSource> {
    file_name: String,
    reader: R,
    state: PrintJobState,
    lines_sent: u64,
}

impl<R: LineSource> PrintJob<R> {
    /// Name of the file printed.
    pub closed spec fn spec_file_name(self) -> Seq<char> {
        self.file_name@
    }

    /// Current state.
    pub closed spec fn spec_state(self) -> PrintJobState {
        self.state
    }

    /// Lines handed out so far.
    pub closed spec fn spec_lines_sent(self) -> nat {
        self.lines_sent as nat
    }

    /// The line source.
    pub closed spec fn spec_reader(self) -> R {
        self.reader
    }

    /// Starts printing `file_name`, reading its lines from `reader`.
    pub fn start(file_name: String, reader: R) -> (j: Self)
        ensures
            j.spec_file_name() == file_name@,
            j.spec_reader() == reader,
            j.spec_state() == PrintJobState::Printing,
            j.spec_lines_sent() == 0,
    {
        PrintJob { file_name, reader, state: PrintJobState::Printing, lines_sent: 0 }
    }

    /// Name of the file printed.
    pub fn file_name(&self) -> (s: &str)
        ensures
            s@ == self.spec_file_name(),
    {
        self.file_name.as_str()
    }

    /// Current state.
    pub fn state(&self) -> (s: PrintJobState)
        ensures
            s == self.spec_state(),
    {
        self.state
    }

    /// The line source (for the caller's progress figures).
    pub fn reader(&self) -> (r: &R)
        ensures
            *r == self.spec_reader(),
    {
        &self.reader
    }

    /// Pauses a running print; any other state is kept.
    pub fn pause(&mut self)
        ensures
            final(self).spec_state() == paused_state(old(self).spec_state()),
            final(self).spec_lines_sent() == old(self).spec_lines_sent(),
            final(self).spec_file_name() == old(self).spec_file_name(),
    {
        if self.state == PrintJobState::Printing {
            self.state = PrintJobState::Paused;
        }
    }

    /// Resumes a paused print; any other state is kept (an aborted or
    /// completed print stays so).
    pub fn resume(&mut self)
        ensures
            final(self).spec_state() == resumed_state(old(self).spec_state()),
            final(self).spec_lines_sent() == old(self).spec_lines_sent(),
            final(self).spec_file_name() == old(self).spec_file_name(),
    {
        if self.state == PrintJobState::Paused {
            self.state = PrintJobState::Printing;
        }
    }

    /// Aborts the print, whatever its state.
    pub fn abort(&mut self)
        ensures
            final(self).spec_state() == PrintJobState::Aborted,
            final(self).spec_lines_sent() == old(self).spec_lines_sent(),
            final(self).spec_file_name() == old(self).spec_file_name(),
    {
        self.state = PrintJobState::Aborted;
    }

    /// The next line to execute. A print that is not printing hands out
    /// nothing and reads nothing; at the end of the file the print
    /// completes; a read error is returned with the state unchanged.
    pub fn next_command(&mut self) -> (r: AppResult<Option<String>>)
        requires
            old(self).spec_lines_sent() < u64::MAX,
        ensures
            final(self).spec_file_name() == old(self).spec_file_name(),
            old(self).spec_state() != PrintJobState::Printing ==> (r matches Ok(None)),
            old(self).spec_state() != PrintJobState::Printing ==> final(self).spec_state() == old(
                self,
            ).spec_state(),
            old(self).spec_state() != PrintJobState::Printing ==> final(self).spec_lines_sent()
                == old(self).spec_lines_sent(),
            old(self).spec_state() == PrintJobState::Printing ==> match r {
                Ok(Some(_)) => final(self).spec_state() == PrintJobState::Printing
                    && final(self).spec_lines_sent() == old(self).spec_lines_sent() + 1,
                Ok(None) => final(self).spec_state() == PrintJobState::Completed
                    && final(self).spec_lines_sent() == old(self).spec_lines_sent(),
                Err(_) => final(self).spec_state() == PrintJobState::Printing
                    && final(self).spec_lines_sent() == old(self).spec_lines_sent(),
            },
    {
        if self.state != PrintJobState::Printing {
            return Ok(None);
        }
        let read = self.reader.next_line();
        self.on_line_read(read)
    }

    /// What a running print does with the outcome of reading its next
    /// line: a line is handed out and counted, the end of the file
    /// completes the print, and a read error is passed on with the state
    /// unchanged.
    pub fn on_line_read(&mut self, read: AppResult<Option<String>>) -> (r: AppResult<Option<String>>)
        requires
            old(self).spec_state() == PrintJobState::Printing,
            old(self).spec_lines_sent() < u64::MAX,
        ensures
            final(self).spec_file_name() == old(self).spec_file_name(),
            final(self).spec_reader() == old(self).spec_reader(),
            read matches Ok(Some(_)) ==> r == read && final(self).spec_state() == PrintJobState::Printing
                && final(self).spec_lines_sent() == old(self).spec_lines_sent() + 1,
            read matches Ok(None) ==> (r matches Ok(None)) && final(self).spec_state()
                == PrintJobState::Completed && final(self).spec_lines_sent() == old(
                self,
            ).spec_lines_sent(),
            read is Err ==> r == read && final(self).spec_state() == PrintJobState::Printing
                && final(self).spec_lines_sent() == old(self).spec_lines_sent(),
    {
        match read {
            Ok(Some(line)) => {
                self.lines_sent = self.lines_sent + 1;
                Ok(Some(line))
            },
            Ok(None) => {
                self.state = PrintJobState::Completed;
                Ok(None)
            },
            Err(e) => Err(e),
        }
    }

    /// Lines handed out so far.
    pub fn lines_sent(&self) -> (n: u64)
        ensures
            n == self.spec_lines_sent(),
    {
        self.lines_sent
    }
}

/// Job law: an aborted or completed print stays so whatever is requested,
/// pausing a running print stops it handing out lines, and resuming it
/// lets it run again.
pub proof fn lemma_print_job_transitions(s: PrintJobState)
    ensures
        s == PrintJobState::Aborted ==> paused_state(s) == s && resumed_state(s) == s,
        s == PrintJobState::Completed ==> paused_state(s) == s && resumed_state(s) == s,
        s == PrintJobState::Printing ==> resumed_state(paused_state(s)) == PrintJobState::Printing,
        s == PrintJobState::Printing ==> paused_state(s) == PrintJobState::Paused,
{
}

} // verus!

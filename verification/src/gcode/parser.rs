//! G-code line parser.
//!
//! Turns one text line into a [`GcodeCommand`]: strips comments (`;` and
//! `(...)`), checks the optional checksum (`*nn`), takes the optional line
//! number (`N<num>`) and the parameter words (`X10.5`, `F1500`, ...). It
//! knows nothing about what individual commands mean.
use crate::error::{AppError, AppResult};
use crate::text::{
    all_digits, ascii_upper, chars_of, copy_range, dec_text, find_first, find_last, is_digit,
    is_float_literal, is_ws, lemma_dec_text_digits, trim_end, trim_start, without_plus,
    is_float_text, last_index, lemma_words_not_empty, parse_unsigned, parse_unsigned_spec, push_chars,
    push_decimal, push_str, split_words, string_of, take_until, to_ascii_upper, trim, trim_chars, views,
    words,
};
use vstd::prelude::*;
use vstd::string::*;
use vstd::utf8::encode_utf8;

verus! {

/// One parameter word of a command: its letter (upper-cased) and the text
/// after the letter. An empty text is a flag such as the `X` of `G28 X`,
/// whose numeric value is `0`; any other text is a number that
/// `str::parse::<f32>` accepts.
#[derive(Debug)]
pub struct GcodeParam {
    pub letter: char,
    pub text: String,
}

/// A parsed G-code command.
#[derive(Debug)]
pub struct GcodeCommand {
    /// Command letter, `'G'` or `'M'`.
    pub letter: char,
    /// Numeric code (`1` for `G1`, `104` for `M104`).
    pub code: u32,
    /// Parameter words in the order written; a later word for the same
    /// letter overrides an earlier one.
    pub parameters: Vec<GcodeParam>,
    /// Line number of an `N<num>` prefix.
    pub line_number: Option<u32>,
}

/// Parameter map of a list of parameter words: later words win.
pub open spec fn param_map(ps: Seq<GcodeParam>) -> Map<char, Seq<char>>
    decreases ps.len(),
{
    if ps.len() == 0 {
        Map::empty()
    } else {
        param_map(ps.drop_last()).insert(ps.last().letter, ps.last().text@)
    }
}

/// Abstract form of a command: letter, code, parameter map, line number.
pub type CommandParts = (char, u32, Map<char, Seq<char>>, Option<u32>);

impl View for GcodeCommand {
    type V = CommandParts;

    open spec fn view(&self) -> CommandParts {
        (self.letter, self.code, param_map(self.parameters@), self.line_number)
    }
}

/// Position of the last parameter word for `letter`, if any.
pub open spec fn last_param_index(ps: Seq<GcodeParam>, letter: char) -> Option<int>
    decreases ps.len(),
{
    if ps.len() == 0 {
        None
    } else if ps.last().letter == letter {
        Some(ps.len() - 1)
    } else {
        last_param_index(ps.drop_last(), letter)
    }
}

proof fn lemma_param_lookup(ps: Seq<GcodeParam>, letter: char)
    ensures
        last_param_index(ps, letter) matches Some(k) ==> 0 <= k < ps.len() && ps[k].letter == letter
            && param_map(ps).contains_key(letter) && param_map(ps)[letter] == ps[k].text@,
        last_param_index(ps, letter) is None ==> !param_map(ps).contains_key(letter),
    decreases ps.len(),
{
    if ps.len() > 0 {
        lemma_param_lookup(ps.drop_last(), letter);
    }
}

impl GcodeCommand {
    fn find_param(&self, letter: char) -> (r: Option<usize>)
        ensures
            r matches Some(k) ==> last_param_index(self.parameters@, letter) == Some(k as int),
            r is None ==> last_param_index(self.parameters@, letter) is None,
    {
        let mut i = self.parameters.len();
        assert(self.parameters@.take(i as int) =~= self.parameters@);
        while i > 0
            invariant
                i <= self.parameters@.len(),
                last_param_index(self.parameters@, letter) == last_param_index(
                    self.parameters@.take(i as int),
                    letter,
                ),
            decreases i,
        {
            if self.parameters[i - 1].letter == letter {
                return Some(i - 1);
            }
            assert(self.parameters@.take(i as int).drop_last() =~= self.parameters@.take(i - 1));
            i -= 1;
        }
        None
    }

    /// Text of parameter `letter` (case-insensitive), if the command has it.
    pub fn value_text(&self, letter: char) -> (r: Option<&String>)
        ensures
            r matches Some(t) ==> self@.2.contains_key(ascii_upper(letter)) && t@ == self@.2[ascii_upper(
                letter,
            )],
            r is None ==> !self@.2.contains_key(ascii_upper(letter)),
    {
        let upper = to_ascii_upper(letter);
        proof {
            lemma_param_lookup(self.parameters@, upper);
        }
        match self.find_param(upper) {
            Some(k) => Some(&self.parameters[k].text),
            None => None,
        }
    }

    /// `true` iff the command carries parameter `letter`, with or without a
    /// value (flags such as `G28 X`).
    pub fn has(&self, letter: char) -> (b: bool)
        ensures
            b == self@.2.contains_key(ascii_upper(letter)),
    {
        let upper = to_ascii_upper(letter);
        proof {
            lemma_param_lookup(self.parameters@, upper);
        }
        self.find_param(upper).is_some()
    }
}

/// XOR of all bytes.
pub open spec fn xor_bytes(bytes: Seq<u8>) -> u8
    decreases bytes.len(),
{
    if bytes.len() == 0 {
        0
    } else {
        xor_bytes(bytes.drop_last()) ^ bytes.last()
    }
}

/// RepRap/Marlin checksum of a line: XOR of all bytes of its UTF-8 text.
pub fn compute_checksum(data: &str) -> (c: u8)
    ensures
        c == xor_bytes(data.spec_bytes()),
{
    let bytes = data.as_bytes();
    let mut acc: u8 = 0;
    let mut i: usize = 0;
    while i < bytes.len()
        invariant
            bytes@ == data.spec_bytes(),
            i <= bytes@.len(),
            acc == xor_bytes(bytes@.take(i as int)),
        decreases bytes.len() - i,
    {
        assert(bytes@.take(i + 1).drop_last() =~= bytes@.take(i as int));
        acc = acc ^ bytes[i];
        i += 1;
    }
    assert(bytes@.take(bytes@.len() as int) =~= bytes@);
    acc
}

/// Nesting depth of parentheses after `s` (a `)` without a matching `(`
/// is ignored).
pub open spec fn paren_depth(s: Seq<char>) -> nat
    decreases s.len(),
{
    if s.len() == 0 {
        0
    } else {
        let d = paren_depth(s.drop_last());
        if s.last() == '(' {
            d + 1
        } else if s.last() == ')' {
            if d > 0 {
                (d - 1) as nat
            } else {
                0
            }
        } else {
            d
        }
    }
}

/// The characters of `s` outside parentheses.
pub open spec fn strip_parens(s: Seq<char>) -> Seq<char>
    decreases s.len(),
{
    if s.len() == 0 {
        Seq::empty()
    } else {
        let r = strip_parens(s.drop_last());
        let c = s.last();
        if c != '(' && c != ')' && paren_depth(s.drop_last()) == 0 {
            r.push(c)
        } else {
            r
        }
    }
}

/// Line without its comments: everything from the first `;` on, and
/// everything in parentheses.
pub open spec fn strip_comments_spec(line: Seq<char>) -> Seq<char> {
    strip_parens(take_until(line, ';'))
}

proof fn lemma_paren_depth_bound(s: Seq<char>)
    ensures
        paren_depth(s) <= s.len(),
    decreases s.len(),
{
    if s.len() > 0 {
        lemma_paren_depth_bound(s.drop_last());
    }
}

fn strip_comments_chars(line: &[char]) -> (out: Vec<char>)
    ensures
        out@ == strip_comments_spec(line@),
{
    let end = find_first(line, ';');
    let mut out: Vec<char> = Vec::new();
    let mut depth: usize = 0;
    let mut i: usize = 0;
    while i < end
        invariant
            end <= line@.len(),
            i <= end,
            depth == paren_depth(line@.take(i as int)),
            depth <= i,
            out@ == strip_parens(line@.take(i as int)),
        decreases end - i,
    {
        let c = line[i];
        assert(line@.take(i + 1).drop_last() =~= line@.take(i as int));
        if c == '(' {
            depth += 1;
        } else if c == ')' {
            if depth > 0 {
                depth -= 1;
            }
        } else if depth == 0 {
            out.push(c);
        }
        i += 1;
    }
    assert(line@.take(end as int) == take_until(line@, ';'));
    out
}

/// Removes G-code comments from a line: everything after `;` and every
/// parenthesised fragment `(...)`.
pub fn strip_comments(line: &str) -> (s: String)
    ensures
        s@ == strip_comments_spec(line@),
{
    let chars = chars_of(line);
    let out = strip_comments_chars(&chars);
    string_of(&out)
}

/// Line without trailing `\r` and `\n` characters.
pub open spec fn trim_end_crlf(s: Seq<char>) -> Seq<char>
    decreases s.len(),
{
    if s.len() > 0 && (s.last() == '\r' || s.last() == '\n') {
        trim_end_crlf(s.drop_last())
    } else {
        s
    }
}

/// Line number of a leading `N<num>` word.
pub open spec fn line_number_of(w: Seq<char>) -> Option<u32> {
    if w.len() > 1 && (w[0] == 'N' || w[0] == 'n') {
        match parse_unsigned_spec(w.drop_first(), u32::MAX as nat) {
            Some(n) => Some(n as u32),
            None => None,
        }
    } else {
        None
    }
}

/// Parameter map of parameter words, or the first word whose value is
/// neither empty nor a number.
pub open spec fn params_fold(ws: Seq<Seq<char>>) -> Result<Map<char, Seq<char>>, Seq<char>>
    decreases ws.len(),
{
    if ws.len() == 0 {
        Ok(Map::empty())
    } else {
        match params_fold(ws.drop_last()) {
            Err(w) => Err(w),
            Ok(m) => {
                let w = ws.last();
                let v = w.drop_first();
                if v.len() == 0 || is_float_text(v) {
                    Ok(m.insert(ascii_upper(w[0]), v))
                } else {
                    Err(w)
                }
            },
        }
    }
}

/// Reason of a command word that is missing after a line number.
pub open spec fn empty_command_reason() -> Seq<char> {
    "пустая команда после номера строки"@
}

/// Reason of a command letter other than `G` and `M`.
pub open spec fn unknown_letter_reason(letter: char) -> Seq<char> {
    "неизвестная буква команды '"@.push(letter) + "' (ожидались 'G' или 'M')"@
}

/// Reason of a command code that is not an unsigned number.
pub open spec fn bad_code_reason(word: Seq<char>) -> Seq<char> {
    "некорректный код команды '"@ + word + "'"@
}

/// Reason of a parameter value that is not a number.
pub open spec fn bad_param_reason(word: Seq<char>) -> Seq<char> {
    "некорректное значение параметра '"@ + word + "'"@
}

/// Reason of a checksum field that is not a byte value.
pub open spec fn bad_checksum_text_reason(text: Seq<char>) -> Seq<char> {
    "некорректная контрольная сумма: '"@ + text + "'"@
}

/// Reason of a checksum that does not match the line.
pub open spec fn checksum_mismatch_reason(expected: nat, actual: nat) -> Seq<char> {
    "несовпадение контрольной суммы (ожидалось "@ + dec_text(expected) + ", вычислено "@
        + dec_text(actual) + ")"@
}

/// Outcome of the words of a non-blank line: the command, or the line
/// number to report and the reason of the error.
pub open spec fn command_outcome(ws: Seq<Seq<char>>) -> Result<CommandParts, (u32, Seq<char>)> {
    let ln = line_number_of(ws[0]);
    let rest = if ln is Some {
        ws.drop_first()
    } else {
        ws
    };
    let l0 = match ln {
        Some(n) => n,
        None => 0,
    };
    if rest.len() == 0 {
        Err((l0, empty_command_reason()))
    } else {
        let cw = rest[0];
        let letter = ascii_upper(cw[0]);
        if letter != 'G' && letter != 'M' {
            Err((l0, unknown_letter_reason(letter)))
        } else {
            match parse_unsigned_spec(cw.drop_first(), u32::MAX as nat) {
                None => Err((l0, bad_code_reason(cw))),
                Some(code) => match params_fold(rest.drop_first()) {
                    Err(w) => Err((l0, bad_param_reason(w))),
                    Ok(m) => Ok((letter, code as u32, m, ln)),
                },
            }
        }
    }
}

/// Outcome of a line body once the checksum is settled.
pub open spec fn body_outcome(body: Seq<char>) -> Result<Option<CommandParts>, (u32, Seq<char>)> {
    let ws = words(strip_comments_spec(body));
    if ws.len() == 0 {
        Ok(None)
    } else {
        match command_outcome(ws) {
            Ok(c) => Ok(Some(c)),
            Err(e) => Err(e),
        }
    }
}

/// What parsing `raw` gives: `Ok(None)` for a blank or comment-only line,
/// `Ok(Some(..))` for a command, `Err((line, reason))` for a G-code error.
///
/// A `*nn` field (after the last `*`) is checked first, against the XOR of
/// the UTF-8 bytes before the `*`; the checksum errors report line `0`.
pub open spec fn parse_line_spec(raw: Seq<char>) -> Result<Option<CommandParts>, (u32, Seq<char>)> {
    let line = trim_end_crlf(raw);
    match last_index(line, '*') {
        None => body_outcome(line),
        Some(k) => {
            let body = line.take(k);
            let cs = line.skip(k + 1);
            match parse_unsigned_spec(trim(cs), 255) {
                None => Err((0, bad_checksum_text_reason(cs))),
                Some(expected) => {
                    let actual = xor_bytes(encode_utf8(body));
                    if actual != expected {
                        Err((0, checksum_mismatch_reason(expected, actual as nat)))
                    } else {
                        body_outcome(body)
                    }
                },
            }
        },
    }
}

/// Appending characters other than `c` keeps the last `c` where it was.
pub(crate) proof fn lemma_last_index_append(s: Seq<char>, t: Seq<char>, c: char)
    requires
        forall|i: int| 0 <= i < t.len() ==> t[i] != c,
    ensures
        last_index(s + t, c) == last_index(s, c),
    decreases t.len(),
{
    if t.len() > 0 {
        assert((s + t).drop_last() =~= s + t.drop_last());
        assert((s + t).last() == t.last());
        lemma_last_index_append(s, t.drop_last(), c);
    } else {
        assert(s + t =~= s);
    }
}

/// A run of digits is its own trimmed form and parses as its value.
proof fn lemma_digits_parse(d: Seq<char>)
    requires
        d.len() > 0,
        all_digits(d),
    ensures
        trim(d) == d,
        without_plus(d) == d,
        forall|i: int| 0 <= i < d.len() ==> d[i] != '*' && d[i] != '\r' && d[i] != '\n',
{
    assert(is_digit(d[0]));
    assert(is_digit(d.last()));
    assert(!is_ws(d[0]));
    assert(trim_start(d) == d);
    assert(!is_ws(d.last()));
    assert(trim_end(d) == d);
    assert forall|i: int| 0 <= i < d.len() implies d[i] != '*' && d[i] != '\r' && d[i] != '\n' by {
        assert(is_digit(d[i]));
    }
}

/// Checksum law: a line made of a body without `*`, a `*` and a decimal
/// byte value parses as the body when the value is the XOR of the body's
/// UTF-8 bytes, and is refused on line `0` with both values otherwise. A
/// body without `*` and without a trailing line break parses the same
/// with or without its checksum.
pub proof fn lemma_checksum_field(body: Seq<char>, checksum: u8)
    requires
        forall|i: int| 0 <= i < body.len() ==> body[i] != '*',
    ensures
        parse_line_spec(body + seq!['*'] + dec_text(checksum as nat)) == (if checksum == xor_bytes(
            encode_utf8(body),
        ) {
            body_outcome(body)
        } else {
            Err::<Option<CommandParts>, (u32, Seq<char>)>(
                (
                    0u32,
                    checksum_mismatch_reason(checksum as nat, xor_bytes(encode_utf8(body)) as nat),
                ),
            )
        }),
        trim_end_crlf(body) == body ==> parse_line_spec(body) == body_outcome(body),
{
    let d = dec_text(checksum as nat);
    lemma_dec_text_digits(checksum as nat);
    lemma_digits_parse(d);
    let line = body + seq!['*'] + d;
    assert(line.last() == d.last());
    assert(trim_end_crlf(line) == line);
    lemma_last_index_append(body + seq!['*'], d, '*');
    assert((body + seq!['*']).drop_last() =~= body);
    assert(last_index(body + seq!['*'], '*') == Some(body.len() as int));
    assert(line.take(body.len() as int) =~= body);
    assert(line.skip(body.len() as int + 1) =~= d);
    lemma_no_star(body);
}

/// A text without `*` has no last `*`.
proof fn lemma_no_star(s: Seq<char>)
    requires
        forall|i: int| 0 <= i < s.len() ==> s[i] != '*',
    ensures
        last_index(s, '*') is None,
    decreases s.len(),
{
    if s.len() > 0 {
        lemma_no_star(s.drop_last());
    }
}

/// `r` is the executable form of the outcome `o`.
pub open spec fn outcome_matches(
    r: AppResult<Option<GcodeCommand>>,
    o: Result<Option<CommandParts>, (u32, Seq<char>)>,
) -> bool {
    match o {
        Ok(None) => r matches Ok(None),
        Ok(Some(parts)) => r matches Ok(Some(c)) && c@ == parts,
        Err((line, reason)) => r matches Err(AppError::GCode { line: l, reason: m }) && l == line
            && m@ == reason,
    }
}

fn gcode_error(line: u32, reason: String) -> (e: AppError)
    ensures
        e == (AppError::GCode { line, reason }),
{
    AppError::GCode { line, reason }
}

#[verifier::spinoff_prover]
fn parse_words(ws: &Vec<Vec<char>>) -> (r: AppResult<GcodeCommand>)
    requires
        ws@.len() > 0,
        forall|i: int| 0 <= i < ws@.len() ==> #[trigger] ws@[i]@.len() > 0,
    ensures
        match command_outcome(views(ws@)) {
            Ok(parts) => r matches Ok(c) && c@ == parts,
            Err((line, reason)) => r matches Err(AppError::GCode { line: l, reason: m }) && l == line
                && m@ == reason,
        },
{
    let ghost vs = views(ws@);
    assert(vs[0] == ws@[0]@);
    let w0 = &ws[0];
    let mut idx: usize = 0;
    let mut line_number: Option<u32> = None;
    if w0.len() > 1 && (w0[0] == 'N' || w0[0] == 'n') {
        let digits = copy_range(w0.as_slice(), 1, w0.len());
        assert(digits@ =~= w0@.drop_first());
        match parse_unsigned(&digits, 0xFFFF_FFFF) {
            Some(n) => {
                line_number = Some(n as u32);
                idx = 1;
            },
            None => {},
        }
    }
    assert(line_number == line_number_of(vs[0]));
    let ghost rest = if line_number is Some {
        vs.drop_first()
    } else {
        vs
    };
    assert(rest =~= vs.skip(idx as int));
    let l0 = match line_number {
        Some(n) => n,
        None => 0,
    };
    if idx >= ws.len() {
        let mut reason = String::new();
        push_str(&mut reason, "пустая команда после номера строки");
        return Err(gcode_error(l0, reason));
    }
    let cw = &ws[idx];
    assert(rest[0] == cw@);
    let letter = to_ascii_upper(cw[0]);
    if letter != 'G' && letter != 'M' {
        let mut reason = String::new();
        push_str(&mut reason, "неизвестная буква команды '");
        reason.push(letter);
        push_str(&mut reason, "' (ожидались 'G' или 'M')");
        return Err(gcode_error(l0, reason));
    }
    let code_text = copy_range(cw.as_slice(), 1, cw.len());
    assert(code_text@ =~= cw@.drop_first());
    let code = match parse_unsigned(&code_text, 0xFFFF_FFFF) {
        Some(c) => {
            assert(c <= u32::MAX);
            c as u32
        },
        None => {
            let mut reason = String::new();
            push_str(&mut reason, "некорректный код команды '");
            push_chars(&mut reason, cw.as_slice());
            push_str(&mut reason, "'");
            return Err(gcode_error(l0, reason));
        },
    };
    let mut parameters: Vec<GcodeParam> = Vec::new();
    let mut j = idx + 1;
    let ghost params_words = rest.drop_first();
    assert(params_words.take(0) =~= Seq::<Seq<char>>::empty());
    while j < ws.len()
        invariant
            idx < j <= ws@.len(),
            vs == views(ws@),
            rest == vs.skip(idx as int),
            params_words == rest.drop_first(),
            forall|i: int| 0 <= i < ws@.len() ==> #[trigger] ws@[i]@.len() > 0,
            line_number == line_number_of(vs[0]),
            rest == (if line_number is Some {
                vs.drop_first()
            } else {
                vs
            }),
            l0 == (match line_number {
                Some(n) => n,
                None => 0,
            }),
            rest.len() > 0,
            letter == ascii_upper(rest[0][0]),
            letter == 'G' || letter == 'M',
            parse_unsigned_spec(rest[0].drop_first(), u32::MAX as nat) == Some(code as nat),
            params_fold(params_words.take(j - idx - 1)) == Ok::<Map<char, Seq<char>>, Seq<char>>(
                param_map(parameters@),
            ),
        decreases ws.len() - j,
    {
        let w = &ws[j];
        let ghost pre = params_words.take(j - idx - 1);
        let ghost post = params_words.take(j - idx);
        assert(post.drop_last() =~= pre);
        assert(post.last() == w@);
        let pl = to_ascii_upper(w[0]);
        let text = copy_range(w.as_slice(), 1, w.len());
        assert(text@ =~= w@.drop_first());
        if text.len() > 0 && !is_float_literal(&text) {
            let mut reason = String::new();
            push_str(&mut reason, "некорректное значение параметра '");
            push_chars(&mut reason, w.as_slice());
            push_str(&mut reason, "'");
            assert(params_fold(post) == Err::<Map<char, Seq<char>>, Seq<char>>(w@));
            proof {
                lemma_params_fold_error_stays(params_words, (j - idx) as int);
            }
            return Err(gcode_error(l0, reason));
        }
        let param = GcodeParam { letter: pl, text: string_of(&text) };
        let ghost ps = parameters@;
        parameters.push(param);
        assert(parameters@.drop_last() =~= ps);
        j += 1;
    }
    assert(params_words.take(ws@.len() - idx - 1) =~= params_words);
    Ok(GcodeCommand { letter, code, parameters, line_number })
}

proof fn lemma_params_fold_error_stays(ws: Seq<Seq<char>>, n: int)
    requires
        0 <= n <= ws.len(),
        params_fold(ws.take(n)) is Err,
    ensures
        params_fold(ws) == params_fold(ws.take(n)),
    decreases ws.len() - n,
{
    if n < ws.len() {
        assert(ws.take(n + 1).drop_last() =~= ws.take(n));
        lemma_params_fold_error_stays(ws, n + 1);
    } else {
        assert(ws.take(n) =~= ws);
    }
}

/// Parses one G-code line. Blank and comment-only lines give `Ok(None)`.
pub fn parse_line(raw_line: &str) -> (r: AppResult<Option<GcodeCommand>>)
    ensures
        outcome_matches(r, parse_line_spec(raw_line@)),
{
    let chars = chars_of(raw_line);
    let mut end = chars.len();
    assert(chars@.take(end as int) =~= chars@);
    while end > 0 && (chars[end - 1] == '\r' || chars[end - 1] == '\n')
        invariant
            end <= chars@.len(),
            trim_end_crlf(chars@) == trim_end_crlf(chars@.take(end as int)),
        decreases end,
    {
        assert(chars@.take(end as int).drop_last() =~= chars@.take(end - 1));
        end -= 1;
    }
    let line = copy_range(chars.as_slice(), 0, end);
    assert(line@ =~= chars@.take(end as int));
    assert(line@ == trim_end_crlf(raw_line@));
    let body = match find_last(line.as_slice(), '*') {
        None => line,
        Some(k) => {
            let cs = copy_range(line.as_slice(), k + 1, line.len());
            assert(cs@ =~= line@.skip(k + 1));
            let cs_trimmed = trim_chars(&cs);
            match parse_unsigned(&cs_trimmed, 255) {
                None => {
                    let mut reason = String::new();
                    push_str(&mut reason, "некорректная контрольная сумма: '");
                    push_chars(&mut reason, cs.as_slice());
                    push_str(&mut reason, "'");
                    return Err(gcode_error(0, reason));
                },
                Some(expected) => {
                    let head = raw_line.substring_char(0, k);
                    assert(head@ =~= line@.take(k as int));
                    let actual = compute_checksum(head);
                    if actual as u64 != expected {
                        let mut reason = String::new();
                        push_str(&mut reason, "несовпадение контрольной суммы (ожидалось ");
                        push_decimal(&mut reason, expected);
                        push_str(&mut reason, ", вычислено ");
                        push_decimal(&mut reason, actual as u64);
                        push_str(&mut reason, ")");
                        return Err(gcode_error(0, reason));
                    }
                },
            }
            let b = copy_range(line.as_slice(), 0, k);
            assert(b@ =~= line@.take(k as int));
            b
        },
    };
    let cleaned = strip_comments_chars(body.as_slice());
    let ws = split_words(cleaned.as_slice());
    if ws.len() == 0 {
        return Ok(None);
    }
    proof {
        lemma_words_not_empty(cleaned@);
        assert forall|i: int| 0 <= i < ws@.len() implies #[trigger] ws@[i]@.len() > 0 by {
            assert(views(ws@)[i] == ws@[i]@);
        }
    }
    match parse_words(&ws) {
        Ok(c) => Ok(Some(c)),
        Err(e) => Err(e),
    }
}

/// Checksum law: the checksum of no bytes is `0`, and appending any byte
/// (whatever its value) XORs that byte into the checksum; so the checksum
/// of two texts put together is the XOR of their checksums.
pub proof fn lemma_checksum_is_xor_of_every_byte(s: Seq<u8>, t: Seq<u8>, b: u8)
    ensures
        xor_bytes(Seq::<u8>::empty()) == 0,
        xor_bytes(s.push(b)) == xor_bytes(s) ^ b,
        xor_bytes(s + t) == xor_bytes(s) ^ xor_bytes(t),
    decreases t.len(),
{
    assert(s.push(b).drop_last() =~= s);
    if t.len() == 0 {
        assert(s + t =~= s);
        let x = xor_bytes(s);
        assert(x ^ 0u8 == x) by (bit_vector);
    } else {
        lemma_checksum_is_xor_of_every_byte(s, t.drop_last(), b);
        assert((s + t).drop_last() =~= s + t.drop_last());
        assert((s + t).last() == t.last());
        let x = xor_bytes(s);
        let y = xor_bytes(t.drop_last());
        let z = t.last();
        assert((x ^ y) ^ z == x ^ (y ^ z)) by (bit_vector);
    }
}

} // verus!

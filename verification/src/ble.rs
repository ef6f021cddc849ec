//! The BLE remote's text command language.
//!
//! A remote writes a command such as `set:speed:50` or `go:menu` into the
//! primary command characteristic. The command is parsed into an action, and
//! the characteristic is answered with `ok:<command>` or `fail:<command>`.

use core::fmt::Write;
use vstd::prelude::*;
use vstd::string::StringSliceAdditionalSpecFns;
use crate::engine::PatternMeta;

verus! {

pub const MAX_COMMAND_LENGTH: usize = 64;

pub const MAX_STATE_LENGTH: usize = 128;

pub const MAX_PATTERN_LENGTH: usize = 256;

/// A command characteristic value: a `heapless::String` of at most
/// `MAX_COMMAND_LENGTH` bytes.
#[verifier::external_body]
pub struct CommandString {
    inner: heapless::String<64>,
}

/// The UTF-8 bytes held by a command string.
pub uninterp spec fn command_bytes(s: CommandString) -> Seq<u8>;

impl CommandString {
    /// `heapless::String::new`: an empty string.
    #[verifier::external_body]
    pub fn new() -> (s: CommandString)
        ensures
            command_bytes(s) == Seq::<u8>::empty(),
    {
        CommandString { inner: heapless::String::new() }
    }

    /// `heapless::String::push_str`: appends all of `text` when it fits in the
    /// capacity (returns `true`), and otherwise changes nothing (returns `false`).
    #[verifier::external_body]
    pub fn push_str(&mut self, text: &str) -> (ok: bool)
        ensures
            ok == (command_bytes(*old(self)).len() + text.spec_bytes().len() <= MAX_COMMAND_LENGTH),
            ok ==> command_bytes(*final(self)) == command_bytes(*old(self)) + text.spec_bytes(),
            !ok ==> command_bytes(*final(self)) == command_bytes(*old(self)),
    {
        self.inner.push_str(text).is_ok()
    }

    /// `heapless::String::as_str`: the text, which never exceeds the capacity.
    #[verifier::external_body]
    pub fn as_str(&self) -> (t: &str)
        ensures
            t.spec_bytes() == command_bytes(*self),
            t.spec_bytes().len() <= MAX_COMMAND_LENGTH,
    {
        self.inner.as_str()
    }
}

/// A pattern-input field that a remote can set.
#[derive(Debug, Clone, Copy, PartialEq, Eq, Structural)]
pub enum InputField {
    Speed,
    Stroke,
    Depth,
    Sensation,
}

/// The effect of an accepted command.
#[derive(Debug, Clone, Copy, PartialEq, Eq, Structural)]
pub enum RemoteAction {
    /// Set an input to `percent` / 100 (the requested value capped at 100).
    SetInput { field: InputField, percent: u32 },
    /// Start playing the pattern at this index.
    PlayPattern(usize),
    /// A `go` navigation command; it has no effect on the machine.
    Go,
}

/// What a command does and what the characteristic is answered with.
pub struct CommandReply {
    /// `None` when the command was refused.
    pub action: Option<RemoteAction>,
    pub response: CommandString,
}

pub open spec fn colon() -> u8 {
    ':' as u8
}

/// The index of the first `:` in `s`, or its length when there is none.
pub open spec fn colon_index(s: Seq<u8>) -> int
    decreases s.len(),
{
    if s.len() == 0 {
        0
    } else if s[0] == colon() {
        0
    } else {
        1 + colon_index(s.drop_first())
    }
}

/// The text before the first `:` (all of `s` when there is none).
pub open spec fn first_piece(s: Seq<u8>) -> Seq<u8> {
    s.take(colon_index(s))
}

/// The text after the first `:`, if there is one.
pub open spec fn after_colon(s: Seq<u8>) -> Option<Seq<u8>> {
    if colon_index(s) < s.len() {
        Some(s.skip(colon_index(s) + 1))
    } else {
        None
    }
}

/// The bytes of an ASCII word.
pub open spec fn ascii(w: Seq<char>) -> Seq<u8> {
    w.map_values(|c: char| c as u8)
}

pub open spec fn word_set() -> Seq<u8> {
    ascii(seq!['s', 'e', 't'])
}

pub open spec fn word_go() -> Seq<u8> {
    ascii(seq!['g', 'o'])
}

pub open spec fn word_speed() -> Seq<u8> {
    ascii(seq!['s', 'p', 'e', 'e', 'd'])
}

pub open spec fn word_stroke() -> Seq<u8> {
    ascii(seq!['s', 't', 'r', 'o', 'k', 'e'])
}

pub open spec fn word_depth() -> Seq<u8> {
    ascii(seq!['d', 'e', 'p', 't', 'h'])
}

pub open spec fn word_sensation() -> Seq<u8> {
    ascii(seq!['s', 'e', 'n', 's', 'a', 't', 'i', 'o', 'n'])
}

pub open spec fn word_pattern() -> Seq<u8> {
    ascii(seq!['p', 'a', 't', 't', 'e', 'r', 'n'])
}

pub open spec fn word_simple_penetration() -> Seq<u8> {
    ascii(
        seq![
            's', 'i', 'm', 'p', 'l', 'e', 'P', 'e', 'n', 'e', 't', 'r', 'a', 't', 'i', 'o', 'n'
        ],
    )
}

pub open spec fn word_stroke_engine() -> Seq<u8> {
    ascii(seq!['s', 't', 'r', 'o', 'k', 'e', 'E', 'n', 'g', 'i', 'n', 'e'])
}

pub open spec fn word_menu() -> Seq<u8> {
    ascii(seq!['m', 'e', 'n', 'u'])
}

pub open spec fn is_digit(b: u8) -> bool {
    '0' as u8 <= b <= '9' as u8
}

/// The value of a string of decimal digits.
pub open spec fn decimal_value(d: Seq<u8>) -> int
    decreases d.len(),
{
    if d.len() == 0 {
        0
    } else {
        decimal_value(d.drop_last()) * 10 + (d.last() - ('0' as u8))
    }
}

/// The digits of `s` after an optional leading `+`.
pub open spec fn unsigned_digits(s: Seq<u8>) -> Seq<u8> {
    if s.len() > 0 && s[0] == '+' as u8 {
        s.drop_first()
    } else {
        s
    }
}

/// What `str::parse` gives for `s` for an unsigned integer type whose largest
/// value is `max`: an optional `+`, then at least one decimal digit and
/// nothing else, with a value of at most `max`.
pub open spec fn parse_unsigned(s: Seq<u8>, max: int) -> Option<int> {
    let d = unsigned_digits(s);
    if d.len() > 0 && (forall|i: int| 0 <= i < d.len() ==> is_digit(#[trigger] d[i])) && decimal_value(
        d,
    ) <= max {
        Some(decimal_value(d))
    } else {
        None
    }
}

/// What `str::parse::<u32>` gives for `s`.
pub open spec fn parse_u32(s: Seq<u8>) -> Option<u32> {
    match parse_unsigned(s, u32::MAX as int) {
        Some(v) => Some(v as u32),
        None => None,
    }
}

/// What `str::parse::<usize>` gives for `s`.
pub open spec fn parse_usize(s: Seq<u8>) -> Option<usize> {
    match parse_unsigned(s, usize::MAX as int) {
        Some(v) => Some(v as usize),
        None => None,
    }
}

/// The field a `set` command names, if any.
pub open spec fn input_field(action: Seq<u8>) -> Option<InputField> {
    if action == word_speed() {
        Some(InputField::Speed)
    } else if action == word_stroke() {
        Some(InputField::Stroke)
    } else if action == word_depth() {
        Some(InputField::Depth)
    } else if action == word_sensation() {
        Some(InputField::Sensation)
    } else {
        None
    }
}

/// The action of command text `s`, or `None` when it is refused.
///
/// `s` is split at `:` into a command word, an action and (for `set`) a
/// value; further pieces are ignored. `set:<field>:<n>` sets an input to
/// `min(n, 100)` percent, `set:pattern:<n>` plays pattern `n`, and
/// `go:simplePenetration`, `go:strokeEngine` and `go:menu` are accepted with
/// no effect. Anything else is refused.
pub open spec fn command_action(s: Seq<u8>) -> Option<RemoteAction> {
    let cmd = first_piece(s);
    match after_colon(s) {
        None => None,
        Some(rest) => {
            let action = first_piece(rest);
            if cmd == word_set() {
                match after_colon(rest) {
                    None => None,
                    Some(rest2) => match parse_u32(first_piece(rest2)) {
                        None => None,
                        Some(v) => match input_field(action) {
                            Some(field) => Some(
                                RemoteAction::SetInput { field, percent: if v <= 100 { v } else { 100 } },
                            ),
                            None => if action == word_pattern() {
                                Some(RemoteAction::PlayPattern(v as usize))
                            } else {
                                None
                            },
                        },
                    },
                }
            } else if cmd == word_go() {
                if action == word_simple_penetration() || action == word_stroke_engine() || action
                    == word_menu() {
                    Some(RemoteAction::Go)
                } else {
                    None
                }
            } else {
                None
            }
        },
    }
}

/// The answer to command text `s`: `ok:` or `fail:`, followed by the command,
/// or by `overflow` when the command does not fit after the prefix.
pub open spec fn response_bytes(s: Seq<u8>, accepted: bool) -> Seq<u8> {
    let prefix = if accepted {
        ascii(seq!['o', 'k', ':'])
    } else {
        ascii(seq!['f', 'a', 'i', 'l', ':'])
    };
    if prefix.len() + s.len() <= MAX_COMMAND_LENGTH {
        prefix + s
    } else {
        prefix + ascii(seq!['o', 'v', 'e', 'r', 'f', 'l', 'o', 'w'])
    }
}

/// The answer always fits the command characteristic, and starts with `ok:`
/// exactly when the command was accepted.
pub proof fn lemma_response_fits(s: Seq<u8>, accepted: bool)
    requires
        s.len() <= MAX_COMMAND_LENGTH,
    ensures
        response_bytes(s, accepted).len() <= MAX_COMMAND_LENGTH,
        accepted ==> response_bytes(s, accepted).take(3) == ascii(seq!['o', 'k', ':']),
        !accepted ==> response_bytes(s, accepted).take(5) == ascii(seq!['f', 'a', 'i', 'l', ':']),
{
    let ok = ascii(seq!['o', 'k', ':']);
    let fail = ascii(seq!['f', 'a', 'i', 'l', ':']);
    let over = ascii(seq!['o', 'v', 'e', 'r', 'f', 'l', 'o', 'w']);
    assert((ok + s).take(3) =~= ok);
    assert((ok + over).take(3) =~= ok);
    assert((fail + s).take(5) =~= fail);
    assert((fail + over).take(5) =~= fail);
}

/// A `set` value is capped at 100 percent, whatever number is written.
pub proof fn lemma_set_value_capped(s: Seq<u8>)
    ensures
        command_action(s) matches Some(RemoteAction::SetInput { percent, .. }) ==> percent <= 100,
{
}

proof fn lemma_colon_index(s: Seq<u8>, i: int)
    requires
        0 <= i <= s.len(),
        forall|j: int| 0 <= j < i ==> s[j] != colon(),
        i == s.len() || s[i] == colon(),
    ensures
        colon_index(s) == i,
    decreases i,
{
    if i > 0 {
        lemma_colon_index(s.drop_first(), i - 1);
    }
}

/// A field word holds no `:`.
proof fn lemma_field_word_has_no_colon(w: Seq<u8>)
    requires
        input_field(w) is Some,
    ensures
        forall|j: int| 0 <= j < w.len() ==> w[j] != colon(),
{
    if w == word_speed() {
        assert(w =~= seq![115u8, 112, 101, 101, 100]);
    } else if w == word_stroke() {
        assert(w =~= seq![115u8, 116, 114, 111, 107, 101]);
    } else if w == word_depth() {
        assert(w =~= seq![100u8, 101, 112, 116, 104]);
    } else {
        assert(w =~= seq![115u8, 101, 110, 115, 97, 116, 105, 111, 110]);
    }
}

/// A value that parses as a number holds no `:`.
proof fn lemma_number_has_no_colon(value: Seq<u8>)
    requires
        parse_u32(value) is Some,
    ensures
        forall|j: int| 0 <= j < value.len() ==> value[j] != colon(),
{
    let d = unsigned_digits(value);
    assert forall|j: int| 0 <= j < value.len() implies value[j] != colon() by {
        if value.len() > 0 && value[0] == '+' as u8 {
            if j > 0 {
                assert(value[j] == d[j - 1]);
                assert(is_digit(d[j - 1]));
            }
        } else {
            assert(is_digit(d[j]));
        }
    }
}

/// `set:<field>:<n>` (and any further `:`-separated pieces) sets the named
/// input to `n` percent when `n` is at most 100, and to 100 percent for a
/// larger `n`: every value up to 100 is kept as written.
pub proof fn lemma_set_input_percent(
    field_word: Seq<u8>,
    field: InputField,
    value: Seq<u8>,
    tail: Seq<u8>,
    n: u32,
)
    requires
        input_field(field_word) == Some(field),
        parse_u32(value) == Some(n),
        tail.len() == 0 || tail[0] == colon(),
    ensures
        n <= 100 ==> command_action(
            word_set() + seq![colon()] + field_word + seq![colon()] + value + tail,
        ) == Some(RemoteAction::SetInput { field, percent: n }),
        n > 100 ==> command_action(
            word_set() + seq![colon()] + field_word + seq![colon()] + value + tail,
        ) == Some(RemoteAction::SetInput { field, percent: 100 }),
{
    let s = word_set() + seq![colon()] + field_word + seq![colon()] + value + tail;
    let rest = field_word + seq![colon()] + value + tail;
    let rest2 = value + tail;
    assert(word_set() =~= seq![115u8, 101, 116]);
    lemma_colon_index(s, 3);
    assert(first_piece(s) =~= word_set());
    assert(s.skip(4) =~= rest);
    lemma_field_word_has_no_colon(field_word);
    lemma_colon_index(rest, field_word.len() as int);
    assert(first_piece(rest) =~= field_word);
    assert(rest.skip(field_word.len() + 1int) =~= rest2);
    lemma_number_has_no_colon(value);
    lemma_colon_index(rest2, value.len() as int);
    assert(first_piece(rest2) =~= value);
}

/// Split `s` at its first `:`: the text before it and, if there is one, the
/// text after it.
fn split_colon(s: &[u8]) -> (r: (&[u8], Option<&[u8]>))
    ensures
        r.0@ == first_piece(s@),
        r.1 is Some == after_colon(s@) is Some,
        r.1 matches Some(rest) ==> rest@ == after_colon(s@).unwrap(),
{
    let n = s.len();
    let mut i: usize = 0;
    while i < n && s[i] != (':' as u8)
        invariant
            n == s@.len(),
            i <= n,
            forall|j: int| 0 <= j < i ==> s@[j] != colon(),
        decreases n - i,
    {
        i = i + 1;
    }
    proof {
        lemma_colon_index(s@, i as int);
    }
    if i < n {
        (&s[0..i], Some(&s[i + 1..n]))
    } else {
        (&s[0..i], None)
    }
}

/// Whether `s` is exactly the word `w`.
fn is_word(s: &[u8], w: &[u8]) -> (b: bool)
    ensures
        b == (s@ == w@),
{
    if s.len() != w.len() {
        return false;
    }
    let n = s.len();
    let mut i: usize = 0;
    while i < n
        invariant
            n == s@.len(),
            n == w@.len(),
            i <= n,
            forall|j: int| 0 <= j < i ==> s@[j] == w@[j],
        decreases n - i,
    {
        if s[i] != w[i] {
            return false;
        }
        i = i + 1;
    }
    assert(s@ =~= w@);
    true
}

proof fn lemma_decimal_grows(d: Seq<u8>, i: int)
    requires
        0 <= i <= d.len(),
        forall|j: int| 0 <= j < d.len() ==> is_digit(#[trigger] d[j]),
    ensures
        decimal_value(d.take(i)) <= decimal_value(d),
    decreases d.len() - i,
{
    if i < d.len() {
        lemma_decimal_grows(d, i + 1);
        assert(d.take(i + 1).drop_last() =~= d.take(i));
        assert(decimal_value(d.take(i)) >= 0) by {
            lemma_decimal_nonneg(d.take(i));
        }
    } else {
        assert(d.take(i) =~= d);
    }
}

proof fn lemma_decimal_nonneg(d: Seq<u8>)
    requires
        forall|j: int| 0 <= j < d.len() ==> is_digit(#[trigger] d[j]),
    ensures
        decimal_value(d) >= 0,
    decreases d.len(),
{
    if d.len() > 0 {
        lemma_decimal_nonneg(d.drop_last());
    }
}

/// `str::parse` of an unsigned integer type whose largest value is `max`, on
/// the bytes of a decimal number.
fn parse_decimal(s: &[u8], max: u64) -> (r: Option<u64>)
    ensures
        r matches Some(v) ==> parse_unsigned(s@, max as int) == Some(v as int),
        r is None ==> parse_unsigned(s@, max as int) is None,
{
    let n = s.len();
    let mut start: usize = 0;
    if n > 0 && s[0] == ('+' as u8) {
        start = 1;
    }
    let ghost d = unsigned_digits(s@);
    assert(d =~= s@.skip(start as int));
    if start == n {
        return None;
    }
    let mut acc: u128 = 0;
    let mut i: usize = start;
    while i < n
        invariant
            n == s@.len(),
            start <= i <= n,
            start < n,
            d == s@.skip(start as int),
            d == unsigned_digits(s@),
            forall|j: int| 0 <= j < i - start ==> is_digit(#[trigger] d[j]),
            acc == decimal_value(d.take(i - start)),
            acc <= max,
        decreases n - i,
    {
        let b = s[i];
        if b < ('0' as u8) || b > ('9' as u8) {
            assert(!is_digit(d[i - start]));
            return None;
        }
        assert(d.take(i - start + 1).drop_last() =~= d.take(i - start));
        acc = acc * 10 + ((b - ('0' as u8)) as u128);
        i = i + 1;
        if acc > max as u128 {
            proof {
                assert(forall|j: int| 0 <= j < i - start ==> is_digit(#[trigger] d.take(i - start)[j]));
                if forall|j: int| 0 <= j < d.len() ==> is_digit(#[trigger] d[j]) {
                    lemma_decimal_grows(d, i - start);
                }
            }
            return None;
        }
    }
    assert(d.take(n - start) =~= d);
    Some(acc as u64)
}

/// `str::parse::<u32>` on the bytes of a decimal number.
fn parse_decimal_u32(s: &[u8]) -> (r: Option<u32>)
    ensures
        r == parse_u32(s@),
{
    match parse_decimal(s, 4294967295u64) {
        Some(v) => Some(v as u32),
        None => None,
    }
}

/// `str::parse::<usize>` on the bytes of a decimal number.
fn parse_decimal_usize(s: &[u8]) -> (r: Option<usize>)
    ensures
        r == parse_usize(s@),
{
    match parse_decimal(s, usize::MAX as u64) {
        Some(v) => Some(v as usize),
        None => None,
    }
}

fn word_set_bytes() -> (w: [u8; 3])
    ensures
        w@ == word_set(),
{
    let w = ['s' as u8, 'e' as u8, 't' as u8];
    assert(w@ =~= word_set());
    w
}

fn word_go_bytes() -> (w: [u8; 2])
    ensures
        w@ == word_go(),
{
    let w = ['g' as u8, 'o' as u8];
    assert(w@ =~= word_go());
    w
}

fn word_speed_bytes() -> (w: [u8; 5])
    ensures
        w@ == word_speed(),
{
    let w = ['s' as u8, 'p' as u8, 'e' as u8, 'e' as u8, 'd' as u8];
    assert(w@ =~= word_speed());
    w
}

fn word_stroke_bytes() -> (w: [u8; 6])
    ensures
        w@ == word_stroke(),
{
    let w = ['s' as u8, 't' as u8, 'r' as u8, 'o' as u8, 'k' as u8, 'e' as u8];
    assert(w@ =~= word_stroke());
    w
}

fn word_depth_bytes() -> (w: [u8; 5])
    ensures
        w@ == word_depth(),
{
    let w = ['d' as u8, 'e' as u8, 'p' as u8, 't' as u8, 'h' as u8];
    assert(w@ =~= word_depth());
    w
}

fn word_sensation_bytes() -> (w: [u8; 9])
    ensures
        w@ == word_sensation(),
{
    let w = [
        's' as u8,
        'e' as u8,
        'n' as u8,
        's' as u8,
        'a' as u8,
        't' as u8,
        'i' as u8,
        'o' as u8,
        'n' as u8,
    ];
    assert(w@ =~= word_sensation());
    w
}

fn word_pattern_bytes() -> (w: [u8; 7])
    ensures
        w@ == word_pattern(),
{
    let w = ['p' as u8, 'a' as u8, 't' as u8, 't' as u8, 'e' as u8, 'r' as u8, 'n' as u8];
    assert(w@ =~= word_pattern());
    w
}

fn word_simple_penetration_bytes() -> (w: [u8; 17])
    ensures
        w@ == word_simple_penetration(),
{
    let w = [
        's' as u8,
        'i' as u8,
        'm' as u8,
        'p' as u8,
        'l' as u8,
        'e' as u8,
        'P' as u8,
        'e' as u8,
        'n' as u8,
        'e' as u8,
        't' as u8,
        'r' as u8,
        'a' as u8,
        't' as u8,
        'i' as u8,
        'o' as u8,
        'n' as u8,
    ];
    assert(w@ =~= word_simple_penetration());
    w
}

fn word_stroke_engine_bytes() -> (w: [u8; 12])
    ensures
        w@ == word_stroke_engine(),
{
    let w = [
        's' as u8,
        't' as u8,
        'r' as u8,
        'o' as u8,
        'k' as u8,
        'e' as u8,
        'E' as u8,
        'n' as u8,
        'g' as u8,
        'i' as u8,
        'n' as u8,
        'e' as u8,
    ];
    assert(w@ =~= word_stroke_engine());
    w
}

fn word_menu_bytes() -> (w: [u8; 4])
    ensures
        w@ == word_menu(),
{
    let w = ['m' as u8, 'e' as u8, 'n' as u8, 'u' as u8];
    assert(w@ =~= word_menu());
    w
}

/// Parse command text into its action (see `command_action`).
pub fn parse_command(s: &[u8]) -> (r: Option<RemoteAction>)
    ensures
        r == command_action(s@),
{
    let (cmd, rest) = split_colon(s);
    let rest = match rest {
        None => {
            return None;
        },
        Some(rest) => rest,
    };
    let (action, rest2) = split_colon(rest);
    if is_word(cmd, word_set_bytes().as_slice()) {
        let rest2 = match rest2 {
            None => {
                return None;
            },
            Some(r) => r,
        };
        let (value, _) = split_colon(rest2);
        let v = match parse_decimal_u32(value) {
            None => {
                return None;
            },
            Some(v) => v,
        };
        let percent = if v <= 100 {
            v
        } else {
            100
        };
        if is_word(action, word_speed_bytes().as_slice()) {
            Some(RemoteAction::SetInput { field: InputField::Speed, percent })
        } else if is_word(action, word_stroke_bytes().as_slice()) {
            Some(RemoteAction::SetInput { field: InputField::Stroke, percent })
        } else if is_word(action, word_depth_bytes().as_slice()) {
            Some(RemoteAction::SetInput { field: InputField::Depth, percent })
        } else if is_word(action, word_sensation_bytes().as_slice()) {
            Some(RemoteAction::SetInput { field: InputField::Sensation, percent })
        } else if is_word(action, word_pattern_bytes().as_slice()) {
            Some(RemoteAction::PlayPattern(v as usize))
        } else {
            None
        }
    } else if is_word(cmd, word_go_bytes().as_slice()) {
        if is_word(action, word_simple_penetration_bytes().as_slice()) || is_word(
            action,
            word_stroke_engine_bytes().as_slice(),
        ) || is_word(action, word_menu_bytes().as_slice()) {
            Some(RemoteAction::Go)
        } else {
            None
        }
    } else {
        None
    }
}

/// Handle a command written to the primary command characteristic: its
/// action (or `None` when refused) and the answer to write back.
pub fn process_command(command: &CommandString) -> (reply: CommandReply)
    ensures
        reply.action == command_action(command_bytes(*command)),
        command_bytes(reply.response) == response_bytes(
            command_bytes(*command),
            reply.action is Some,
        ),
{
    let text = command.as_str();
    let bytes = text.as_bytes();
    let action = parse_command(bytes);
    let mut response = CommandString::new();
    let ok_prefix = "ok:";
    let fail_prefix = "fail:";
    let overflow = "overflow";
    proof {
        reveal_strlit("ok:");
        reveal_strlit("fail:");
        reveal_strlit("overflow");
        vstd::string::is_ascii_spec_bytes(ok_prefix);
        vstd::string::is_ascii_spec_bytes(fail_prefix);
        vstd::string::is_ascii_spec_bytes(overflow);
        assert(vstd::string::is_ascii(ok_prefix));
        assert(vstd::string::is_ascii(fail_prefix));
        assert(vstd::string::is_ascii(overflow));
        assert(ok_prefix.spec_bytes() =~= ascii(seq!['o', 'k', ':']));
        assert(fail_prefix.spec_bytes() =~= ascii(seq!['f', 'a', 'i', 'l', ':']));
        assert(overflow.spec_bytes() =~= ascii(seq!['o', 'v', 'e', 'r', 'f', 'l', 'o', 'w']));
    }
    if action.is_some() {
        response.push_str(ok_prefix);
    } else {
        response.push_str(fail_prefix);
    }
    if !response.push_str(text) {
        response.push_str(overflow);
    }
    CommandReply { action, response }
}


/// A pattern-list or pattern-description characteristic value: a
/// `heapless::String` of at most `MAX_PATTERN_LENGTH` bytes.
#[verifier::external_body]
pub struct PatternText {
    inner: heapless::String<256>,
}

/// The UTF-8 bytes held by a pattern text.
pub uninterp spec fn pattern_text_bytes(s: PatternText) -> Seq<u8>;

/// The UTF-8 bytes of a character.
pub open spec fn char_bytes(c: char) -> Seq<u8> {
    vstd::utf8::encode_utf8(seq![c])
}

/// The decimal digits of `n`, as `Display` writes an unsigned integer.
pub open spec fn decimal_digits(n: nat) -> Seq<u8>
    decreases n,
{
    if n < 10 {
        seq![('0' as u8 + n) as u8]
    } else {
        decimal_digits(n / 10).push(('0' as u8 + n % 10) as u8)
    }
}

/// Every digit byte of `n` is an ASCII digit.
proof fn lemma_digit_bytes_ascii(n: nat)
    ensures
        forall|i: int|
            0 <= i < decimal_digits(n).len() ==> 0x30 <= #[trigger] decimal_digits(n)[i] <= 0x39,
    decreases n,
{
    assert(('0' as u8) == 0x30);
    if n >= 10 {
        lemma_digit_bytes_ascii(n / 10);
        assert(n % 10 < 10);
        let d = decimal_digits(n / 10);
        assert(decimal_digits(n) == d.push(('0' as u8 + n % 10) as u8));
        assert(forall|i: int| 0 <= i < d.len() ==> #[trigger] decimal_digits(n)[i] == d[i]);
    } else {
        assert(decimal_digits(n) == seq![('0' as u8 + n) as u8]);
    }
}

/// The decimal digits of `n`, most significant first.
fn decimal_digit_bytes(n: usize) -> (digits: Vec<u8>)
    ensures
        digits@ == decimal_digits(n as nat),
    decreases n,
{
    if n < 10 {
        let mut v: Vec<u8> = Vec::new();
        v.push(0x30u8 + n as u8);
        v
    } else {
        let mut v = decimal_digit_bytes(n / 10);
        v.push(0x30u8 + (n % 10) as u8);
        v
    }
}

/// The text that opens a pattern-list entry: `{"name":"`.
pub open spec fn entry_open() -> Seq<u8> {
    ascii(seq!['{', '"', 'n', 'a', 'm', 'e', '"', ':', '"'])
}

/// The text between a pattern's name and its index: `","idx":`.
pub open spec fn entry_middle() -> Seq<u8> {
    ascii(seq!['"', ',', '"', 'i', 'd', 'x', '"', ':'])
}

/// The text that closes a pattern-list entry: `},`.
pub open spec fn entry_close() -> Seq<u8> {
    ascii(seq!['}', ','])
}

/// The JSON object that lists pattern `idx` named `name`, with a trailing comma:
/// `{"name":"<name>","idx":<idx>},`.
pub open spec fn json_entry(name: Seq<u8>, idx: nat) -> Seq<u8> {
    entry_open() + name + entry_middle() + decimal_digits(idx) + entry_close()
}

/// Appending `piece` to the pattern text `t`: the whole piece when it fits
/// in `MAX_PATTERN_LENGTH` bytes, and nothing otherwise. The flag tells which.
pub open spec fn push_piece(t: Seq<u8>, piece: Seq<u8>) -> (Seq<u8>, bool) {
    if t.len() + piece.len() <= MAX_PATTERN_LENGTH {
        (t + piece, true)
    } else {
        (t, false)
    }
}

/// The pattern text `t` without its last UTF-8 character (unchanged when
/// empty).
pub open spec fn pop_last_char(t: Seq<u8>) -> Seq<u8> {
    if t.len() > 0 {
        t.take(t.len() - vstd::utf8::length_of_last_scalar(t))
    } else {
        t
    }
}

/// Writing the entry for pattern `idx` named `name` to the pattern text `t`:
/// its five pieces (opening, name, middle, index digits, closing) are
/// appended in turn, and writing stops at the first piece that does not fit.
/// The flag is `true` when every piece was appended.
pub open spec fn write_entry_result(t: Seq<u8>, name: Seq<u8>, idx: nat) -> (Seq<u8>, bool) {
    let (t1, ok1) = push_piece(t, entry_open());
    if !ok1 {
        (t1, false)
    } else {
        let (t2, ok2) = push_piece(t1, name);
        if !ok2 {
            (t2, false)
        } else {
            let (t3, ok3) = push_piece(t2, entry_middle());
            if !ok3 {
                (t3, false)
            } else {
                let (t4, ok4) = push_piece(t3, decimal_digits(idx));
                if !ok4 {
                    (t4, false)
                } else {
                    push_piece(t4, entry_close())
                }
            }
        }
    }
}

impl PatternText {
    /// `heapless::String::new`: an empty string.
    #[verifier::external_body]
    pub fn new() -> (s: PatternText)
        ensures
            pattern_text_bytes(s) == Seq::<u8>::empty(),
    {
        PatternText { inner: heapless::String::new() }
    }

    /// `heapless::String::push_str`: appends all of `text` when it fits in the
    /// capacity (returns `true`), and otherwise changes nothing (returns `false`).
    #[verifier::external_body]
    pub fn push_str(&mut self, text: &str) -> (ok: bool)
        ensures
            ok == (pattern_text_bytes(*old(self)).len() + text.spec_bytes().len()
                <= MAX_PATTERN_LENGTH),
            ok ==> pattern_text_bytes(*final(self)) == pattern_text_bytes(*old(self))
                + text.spec_bytes(),
            !ok ==> pattern_text_bytes(*final(self)) == pattern_text_bytes(*old(self)),
    {
        self.inner.push_str(text).is_ok()
    }

    /// `heapless::String::push`: appends the UTF-8 bytes of `c` when they fit
    /// (returns `true`), and otherwise changes nothing (returns `false`).
    #[verifier::external_body]
    pub fn push_char(&mut self, c: char) -> (ok: bool)
        ensures
            ok == (pattern_text_bytes(*old(self)).len() + char_bytes(c).len() <= MAX_PATTERN_LENGTH),
            ok ==> pattern_text_bytes(*final(self)) == pattern_text_bytes(*old(self)) + char_bytes(
                c,
            ),
            !ok ==> pattern_text_bytes(*final(self)) == pattern_text_bytes(*old(self)),
    {
        self.inner.push(c).is_ok()
    }

    /// `heapless::String::pop`: removes the last character, if any. The text
    /// is valid UTF-8, so that character is its last
    /// `vstd::utf8::length_of_last_scalar` bytes.
    #[verifier::external_body]
    pub fn pop(&mut self) -> (popped: bool)
        ensures
            popped == (pattern_text_bytes(*old(self)).len() > 0),
            pattern_text_bytes(*final(self)) == pop_last_char(pattern_text_bytes(*old(self))),
            popped ==> pattern_text_bytes(*final(self)).len() < pattern_text_bytes(*old(self)).len(),
    {
        self.inner.pop().is_some()
    }

    /// `heapless::String::as_str`: the text, which never exceeds the capacity.
    #[verifier::external_body]
    pub fn as_str(&self) -> (t: &str)
        ensures
            t.spec_bytes() == pattern_text_bytes(*self),
            t.spec_bytes().len() <= MAX_PATTERN_LENGTH,
    {
        self.inner.as_str()
    }

    /// Append the decimal digits of `n` (as `Display` writes an unsigned
    /// integer) when they all fit (returns `true`); otherwise change nothing
    /// (returns `false`).
    fn push_decimal(&mut self, n: usize) -> (ok: bool)
        ensures
            ok == (pattern_text_bytes(*old(self)).len() + decimal_digits(n as nat).len()
                <= MAX_PATTERN_LENGTH),
            ok ==> pattern_text_bytes(*final(self)) == pattern_text_bytes(*old(self))
                + decimal_digits(n as nat),
            !ok ==> pattern_text_bytes(*final(self)) == pattern_text_bytes(*old(self)),
    {
        let digits = decimal_digit_bytes(n);
        let used = self.as_str().as_bytes().len();
        if digits.len() > MAX_PATTERN_LENGTH - used {
            return false;
        }
        let ghost start = pattern_text_bytes(*self);
        let mut k: usize = 0;
        while k < digits.len()
            invariant
                k <= digits.len(),
                digits@ == decimal_digits(n as nat),
                start.len() + digits@.len() <= MAX_PATTERN_LENGTH,
                pattern_text_bytes(*self) == start + digits@.take(k as int),
            decreases digits.len() - k,
        {
            let d = digits[k];
            let c = d as char;
            proof {
                lemma_digit_bytes_ascii(n as nat);
                assert(d < 0x80);
                lemma_ascii_char_bytes(c);
                assert(ascii(seq![c]) =~= seq![d]);
                assert(digits@.take(k + 1) =~= digits@.take(k as int).push(d));
            }
            self.push_char(c);
            k = k + 1;
        }
        proof {
            assert(digits@.take(k as int) =~= digits@);
        }
        true
    }

    /// Write the JSON entry `{"name":"<name>","idx":<idx>},` piece by piece,
    /// stopping at the first piece that does not fit.
    fn write_entry(&mut self, name: &str, idx: usize) -> (ok: bool)
        ensures
            (pattern_text_bytes(*final(self)), ok) == write_entry_result(
                pattern_text_bytes(*old(self)),
                name.spec_bytes(),
                idx as nat,
            ),
    {
        let open = "{\"name\":\"";
        let middle = "\",\"idx\":";
        let close = "},";
        proof {
            reveal_strlit("{\"name\":\"");
            reveal_strlit("\",\"idx\":");
            reveal_strlit("},");
            vstd::string::is_ascii_spec_bytes(open);
            vstd::string::is_ascii_spec_bytes(middle);
            vstd::string::is_ascii_spec_bytes(close);
            assert(vstd::string::is_ascii(open));
            assert(vstd::string::is_ascii(middle));
            assert(vstd::string::is_ascii(close));
            assert(open.spec_bytes() =~= entry_open());
            assert(middle.spec_bytes() =~= entry_middle());
            assert(close.spec_bytes() =~= entry_close());
        }
        if !self.push_str(open) {
            return false;
        }
        if !self.push_str(name) {
            return false;
        }
        if !self.push_str(middle) {
            return false;
        }
        if !self.push_decimal(idx) {
            return false;
        }
        self.push_str(close)
    }
}

/// The JSON entries of the patterns `ps`, in order.
pub open spec fn json_entries(ps: Seq<PatternMeta>) -> Seq<u8>
    decreases ps.len(),
{
    if ps.len() == 0 {
        Seq::empty()
    } else {
        json_entries(ps.drop_last()) + json_entry(ps.last().name.spec_bytes(), (ps.len() - 1) as nat)
    }
}

/// The unterminated JSON array of the patterns `ps`: `[` and every entry.
pub open spec fn json_list_open(ps: Seq<PatternMeta>) -> Seq<u8> {
    ascii(seq!['[']) + json_entries(ps)
}

/// The pattern text `t` after writing the entries of the patterns `ps` from
/// index `i` on, stopping after the first entry that does not fit whole (of
/// which the pieces that fit stay written).
pub open spec fn json_fill(ps: Seq<PatternMeta>, i: int, t: Seq<u8>) -> Seq<u8>
    decreases ps.len() - i,
{
    if i < 0 || i >= ps.len() {
        t
    } else {
        let (t1, ok) = write_entry_result(t, ps[i].name.spec_bytes(), i as nat);
        if ok {
            json_fill(ps, i + 1, t1)
        } else {
            t1
        }
    }
}

/// The pattern-list value for the patterns `ps`: `[`, then the entries as far
/// as they fit, then the last character removed (the trailing comma when every
/// entry fitted), then `]` when it fits.
pub open spec fn patterns_json(ps: Seq<PatternMeta>) -> Seq<u8> {
    push_piece(pop_last_char(json_fill(ps, 0, ascii(seq!['[']))), ascii(seq![']'])).0
}

proof fn lemma_ascii_char_bytes(c: char)
    requires
        (c as u32) < 0x80,
    ensures
        char_bytes(c) == ascii(seq![c]),
{
    let u = c as u32;
    assert((u & 0x7F) == u) by (bit_vector)
        requires
            u < 0x80,
    ;
    let e = Seq::<char>::empty();
    assert(seq![c].drop_first() =~= e);
    assert(vstd::utf8::encode_utf8(e) =~= Seq::<u8>::empty());
    assert(seq![c][0] == c);
    assert(vstd::utf8::encode_scalar(u) =~= seq![(u & 0x7F) as u8]);
    assert(char_bytes(c) =~= vstd::utf8::encode_scalar(u) + vstd::utf8::encode_utf8(e));
    assert(char_bytes(c) =~= seq![(u & 0x7F) as u8]);
    assert(ascii(seq![c]) =~= seq![c as u8]);
}

/// Writing an entry succeeds exactly when the whole entry fits, and then
/// appends it; whatever happens, a text within the capacity stays within it.
proof fn lemma_write_entry_result(t: Seq<u8>, name: Seq<u8>, idx: nat)
    ensures
        write_entry_result(t, name, idx).1 == (t.len() + json_entry(name, idx).len()
            <= MAX_PATTERN_LENGTH),
        write_entry_result(t, name, idx).1 ==> write_entry_result(t, name, idx).0 == t
            + json_entry(name, idx),
        t.len() <= MAX_PATTERN_LENGTH ==> write_entry_result(t, name, idx).0.len()
            <= MAX_PATTERN_LENGTH,
{
    let e = json_entry(name, idx);
    assert(e.len() == entry_open().len() + name.len() + entry_middle().len()
        + decimal_digits(idx).len() + entry_close().len());
    assert(t + e =~= t + entry_open() + name + entry_middle() + decimal_digits(idx)
        + entry_close());
}

proof fn lemma_json_entries_prefix(ps: Seq<PatternMeta>, i: int)
    requires
        0 <= i <= ps.len(),
    ensures
        json_entries(ps.take(i)).len() <= json_entries(ps).len(),
    decreases ps.len() - i,
{
    if i < ps.len() {
        lemma_json_entries_prefix(ps, i + 1);
        assert(ps.take(i + 1).drop_last() =~= ps.take(i));
    } else {
        assert(ps.take(i) =~= ps);
    }
}

proof fn lemma_json_entry_ends_with_comma(name: Seq<u8>, idx: nat)
    ensures
        json_entry(name, idx).len() > 0,
        json_entry(name, idx).last() == ',' as u8,
{
}

/// All patterns as a JSON array of `{"name":...,"idx":...}` objects.
///
/// When the whole array fits in `MAX_PATTERN_LENGTH` bytes it is returned
/// exactly (the trailing comma of the last entry removed, `]` appended). An
/// empty list gives `]`, since removing the "last comma" removes the `[`.
/// When it does not fit, the entries are written as far as they go, the last
/// character is removed and `]` is appended if there is room.
pub fn get_all_patterns_json(patterns: &[PatternMeta]) -> (out: PatternText)
    ensures
        pattern_text_bytes(out) == patterns_json(patterns@),
        json_list_open(patterns@).len() <= MAX_PATTERN_LENGTH ==> pattern_text_bytes(out)
            == json_list_open(patterns@).drop_last() + ascii(seq![']']),
        pattern_text_bytes(out).len() <= MAX_PATTERN_LENGTH,
{
    let mut output = PatternText::new();
    let ghost ps = patterns@;
    let ghost open = ascii(seq!['[']);
    proof {
        lemma_ascii_char_bytes('[');
    }
    output.push_char('[');
    let n = patterns.len();
    let mut i: usize = 0;
    let mut complete = true;
    while i < n
        invariant_except_break
            complete,
        invariant
            n == ps.len(),
            ps == patterns@,
            open == ascii(seq!['[']),
            i <= n,
            pattern_text_bytes(output).len() <= MAX_PATTERN_LENGTH,
            complete ==> pattern_text_bytes(output) == open + json_entries(ps.take(i as int)),
            complete ==> json_fill(ps, 0, open) == json_fill(ps, i as int, pattern_text_bytes(output)),
        ensures
            pattern_text_bytes(output).len() <= MAX_PATTERN_LENGTH,
            complete ==> i == n,
            complete ==> pattern_text_bytes(output) == open + json_entries(ps.take(i as int)),
            !complete ==> json_list_open(ps).len() > MAX_PATTERN_LENGTH,
            json_fill(ps, 0, open) == pattern_text_bytes(output),
        decreases n - i,
    {
        let p = patterns[i];
        let ghost before = pattern_text_bytes(output);
        proof {
            lemma_write_entry_result(before, p.name.spec_bytes(), i as nat);
        }
        if !output.write_entry(p.name, i) {
            proof {
                if complete {
                    lemma_json_entries_prefix(ps, i + 1);
                    assert(ps.take(i + 1).drop_last() =~= ps.take(i as int));
                }
            }
            complete = false;
            break;
        }
        proof {
            assert(ps.take(i + 1).drop_last() =~= ps.take(i as int));
            if complete {
                assert(pattern_text_bytes(output) =~= open + json_entries(ps.take(i + 1)));
            }
        }
        i = i + 1;
    }
    proof {
        if complete {
            assert(ps.take(n as int) =~= ps);
            let full = json_list_open(ps);
            if n > 0 {
                let last = json_entry(ps.last().name.spec_bytes(), (n - 1) as nat);
                lemma_json_entry_ends_with_comma(ps.last().name.spec_bytes(), (n - 1) as nat);
                assert(json_entries(ps) == json_entries(ps.drop_last()) + last);
                assert(full =~= (open + json_entries(ps.drop_last())) + last);
                assert(full.last() == last.last());
            } else {
                assert(json_entries(ps) =~= Seq::<u8>::empty());
                assert(full =~= open);
            }
            assert(full.last() < 0x80);
        }
    }
    let ghost before_pop = pattern_text_bytes(output);
    output.pop();
    proof {
        lemma_ascii_char_bytes(']');
    }
    let ghost after_pop = pattern_text_bytes(output);
    output.push_char(']');
    proof {
        let full = json_list_open(ps);
        if full.len() <= MAX_PATTERN_LENGTH {
            assert(complete);
            assert(before_pop == full);
            assert(after_pop == full.drop_last());
            assert(pattern_text_bytes(output) == full.drop_last() + ascii(seq![']']));
        }
    }
    output
}

/// The description of pattern `index`, `Invalid pattern index` when there is
/// none, or `Pattern Description Too Long` when it does not fit.
pub open spec fn description_bytes(patterns: Seq<PatternMeta>, index: int) -> Seq<u8> {
    let d = if 0 <= index < patterns.len() {
        patterns[index].description.spec_bytes()
    } else {
        ascii(
            seq![
                'I', 'n', 'v', 'a', 'l', 'i', 'd', ' ', 'p', 'a', 't', 't', 'e', 'r', 'n', ' ', 'i', 'n', 'd', 'e', 'x'
            ],
        )
    };
    if d.len() <= MAX_PATTERN_LENGTH {
        d
    } else {
        ascii(
            seq![
                'P', 'a', 't', 't', 'e', 'r', 'n', ' ', 'D', 'e', 's', 'c', 'r', 'i', 'p', 't', 'i', 'o', 'n', ' ', 'T', 'o', 'o', ' ', 'L', 'o', 'n', 'g'
            ],
        )
    }
}

/// The description of the pattern at `index`, for the description
/// characteristic.
pub fn get_pattern_description(patterns: &[PatternMeta], index: usize) -> (out: PatternText)
    ensures
        pattern_text_bytes(out) == description_bytes(patterns@, index as int),
{
    let mut output = PatternText::new();
    let invalid = "Invalid pattern index";
    let too_long = "Pattern Description Too Long";
    proof {
        reveal_strlit("Invalid pattern index");
        reveal_strlit("Pattern Description Too Long");
        vstd::string::is_ascii_spec_bytes(invalid);
        vstd::string::is_ascii_spec_bytes(too_long);
        assert(vstd::string::is_ascii(invalid));
        assert(vstd::string::is_ascii(too_long));
        assert(invalid.spec_bytes() =~= ascii(
            seq![
                'I', 'n', 'v', 'a', 'l', 'i', 'd', ' ', 'p', 'a', 't', 't', 'e', 'r', 'n', ' ', 'i', 'n', 'd', 'e', 'x'
            ],
        ));
        assert(too_long.spec_bytes() =~= ascii(
            seq![
                'P', 'a', 't', 't', 'e', 'r', 'n', ' ', 'D', 'e', 's', 'c', 'r', 'i', 'p', 't', 'i', 'o', 'n', ' ', 'T', 'o', 'o', ' ', 'L', 'o', 'n', 'g'
            ],
        ));
    }
    let description = if index < patterns.len() {
        patterns[index].description
    } else {
        invalid
    };
    if !output.push_str(description) {
        output.push_str(too_long);
    }
    output
}

/// The answer to a request written to the pattern-description
/// characteristic: the description of the pattern whose index the request
/// holds, or `Could not parse pattern index` when the request is not an
/// index.
pub open spec fn description_reply_bytes(patterns: Seq<PatternMeta>, request: Seq<u8>) -> Seq<u8> {
    match parse_usize(request) {
        Some(index) => description_bytes(patterns, index as int),
        None => ascii(
            seq![
                'C', 'o', 'u', 'l', 'd', ' ', 'n', 'o', 't', ' ', 'p', 'a', 'r', 's', 'e', ' ', 'p', 'a', 't', 't', 'e', 'r', 'n', ' ', 'i', 'n', 'd', 'e', 'x'
            ],
        ),
    }
}

/// Answer a request written to the pattern-description characteristic.
pub fn pattern_description_reply(patterns: &[PatternMeta], request: &PatternText) -> (out: PatternText)
    ensures
        pattern_text_bytes(out) == description_reply_bytes(patterns@, pattern_text_bytes(*request)),
{
    let text = request.as_str();
    match parse_decimal_usize(text.as_bytes()) {
        Some(index) => get_pattern_description(patterns, index),
        None => {
            let mut output = PatternText::new();
            let msg = "Could not parse pattern index";
            proof {
                reveal_strlit("Could not parse pattern index");
                vstd::string::is_ascii_spec_bytes(msg);
                assert(vstd::string::is_ascii(msg));
                assert(msg.spec_bytes() =~= ascii(
                    seq![
                        'C', 'o', 'u', 'l', 'd', ' ', 'n', 'o', 't', ' ', 'p', 'a', 'r', 's', 'e', ' ', 'p', 'a', 't', 't', 'e', 'r', 'n', ' ', 'i', 'n', 'd', 'e', 'x'
                    ],
                ));
            }
            output.push_str(msg);
            output
        },
    }
}

} // verus!

//! The command language of the synthesizer console.
//!
//! A line is cut into words at whitespace; a line of one word is a keyword
//! command, a line of two words plays notes for a given time.

use vstd::prelude::*;
use vstd::string::StrSliceExecFns;

verus! {

/// The characters with the Unicode `White_Space` property.
pub open spec fn is_space(c: char) -> bool {
    let u = c as u32;
    ||| u == 0x20
    ||| 0x09 <= u <= 0x0d
    ||| u == 0x85
    ||| u == 0xa0
    ||| u == 0x1680
    ||| 0x2000 <= u <= 0x200a
    ||| u == 0x2028
    ||| u == 0x2029
    ||| u == 0x202f
    ||| u == 0x205f
    ||| u == 0x3000
}

/// Whether `c` is a whitespace character.
pub fn is_space_char(c: char) -> (r: bool)
    ensures
        r == is_space(c),
{
    let u = c as u32;
    u == 0x20 || (0x09 <= u && u <= 0x0d) || u == 0x85 || u == 0xa0 || u == 0x1680 || (0x2000
        <= u && u <= 0x200a) || u == 0x2028 || u == 0x2029 || u == 0x202f || u == 0x205f || u
        == 0x3000
}

/// The maximal runs of non-whitespace characters of `s`, in order.
pub open spec fn words(s: Seq<char>) -> Seq<Seq<char>>
    decreases s.len(),
{
    if s.len() == 0 {
        Seq::empty()
    } else {
        let init = s.drop_last();
        let c = s.last();
        if is_space(c) {
            words(init)
        } else if init.len() > 0 && !is_space(init.last()) {
            let w = words(init);
            w.update(w.len() - 1, w.last().push(c))
        } else {
            words(init).push(seq![c])
        }
    }
}

/// Cuts `s` into its words.
pub fn split_words(s: &str) -> (r: Vec<String>)
    ensures
        r@.len() == words(s@).len(),
        forall|k: int| 0 <= k < r@.len() ==> #[trigger] r@[k]@ == words(s@)[k],
{
    let n = s.unicode_len();
    let mut r: Vec<String> = Vec::new();
    let mut start: usize = 0;
    let mut i: usize = 0;
    while i < n
        invariant
            n == s@.len(),
            i <= n,
            start <= i,
            start == i || (start < i && !is_space(s@[i - 1])),
            forall|k: int| start <= k < i ==> !is_space(#[trigger] s@[k]),
            start > 0 ==> is_space(s@[start - 1]),
            ({
                let done = words(s@.take(i as int));
                let full = if start < i {
                    r@.len() + 1int
                } else {
                    r@.len() as int
                };
                &&& done.len() == full
                &&& forall|k: int| 0 <= k < r@.len() ==> #[trigger] r@[k]@ == done[k]
                &&& start < i ==> done.last() == s@.subrange(start as int, i as int)
            }),
        decreases n - i,
    {
        let c = s.get_char(i);
        let ghost prev = s@.take(i as int);
        assert(s@.take(i + 1).drop_last() =~= prev);
        assert(s@.take(i + 1).last() == c);
        if is_space_char(c) {
            if start < i {
                let w = s.substring_char(start, i).to_owned();
                r.push(w);
            }
            start = i + 1;
        } else {
            proof {
                if start < i {
                    assert(s@.subrange(start as int, i + 1) =~= s@.subrange(start as int, i as int).push(c));
                } else {
                    assert(s@.subrange(start as int, i + 1) =~= seq![c]);
                }
            }
        }
        i = i + 1;
    }
    assert(s@.take(n as int) =~= s@);
    if start < n {
        let w = s.substring_char(start, n).to_owned();
        r.push(w);
    }
    r
}

/// Splits a line of exactly two words into those two words: a note name and
/// a duration.
pub fn parse_custom_duration(input: &str) -> (r: Option<(String, String)>)
    ensures
        r is Some <==> words(input@).len() == 2,
        r matches Some((name, duration)) ==> name@ == words(input@)[0] && duration@ == words(
            input@,
        )[1],
{
    let mut parts = split_words(input);
    if parts.len() == 2 {
        let duration = parts.pop().unwrap();
        let name = parts.pop().unwrap();
        Some((name, duration))
    } else {
        None
    }
}

/// A note to start: its note number and its velocity in hundredths.
#[derive(Clone, Copy, Debug, PartialEq, Eq, Structural)]
pub struct NoteEvent {
    pub note: u8,
    pub velocity_percent: u8,
}

pub open spec fn event(note: u8, velocity_percent: u8) -> NoteEvent {
    NoteEvent { note, velocity_percent }
}

/// The note that an upper-case note name plays: C D E F G A B of the middle
/// octave, and H for the C above, each with its own velocity.
pub open spec fn key_note(c: char) -> Option<NoteEvent> {
    if c == 'C' {
        Some(event(60, 80))
    } else if c == 'D' {
        Some(event(62, 75))
    } else if c == 'E' {
        Some(event(64, 70))
    } else if c == 'F' {
        Some(event(65, 65))
    } else if c == 'G' {
        Some(event(67, 60))
    } else if c == 'A' {
        Some(event(69, 55))
    } else if c == 'B' {
        Some(event(71, 50))
    } else if c == 'H' {
        Some(event(72, 50))
    } else {
        None
    }
}

/// The note that an upper-case note name plays.
pub fn note_for_key(c: char) -> (r: Option<NoteEvent>)
    ensures
        r == key_note(c),
{
    match c {
        'C' => Some(NoteEvent { note: 60, velocity_percent: 80 }),
        'D' => Some(NoteEvent { note: 62, velocity_percent: 75 }),
        'E' => Some(NoteEvent { note: 64, velocity_percent: 70 }),
        'F' => Some(NoteEvent { note: 65, velocity_percent: 65 }),
        'G' => Some(NoteEvent { note: 67, velocity_percent: 60 }),
        'A' => Some(NoteEvent { note: 69, velocity_percent: 55 }),
        'B' => Some(NoteEvent { note: 71, velocity_percent: 50 }),
        'H' => Some(NoteEvent { note: 72, velocity_percent: 50 }),
        _ => None,
    }
}

/// The note that a lower-case key plays at once: c d e f g a b, as their
/// upper-case names.
pub open spec fn play_key(c: char) -> Option<NoteEvent> {
    if c == 'c' {
        key_note('C')
    } else if c == 'd' {
        key_note('D')
    } else if c == 'e' {
        key_note('E')
    } else if c == 'f' {
        key_note('F')
    } else if c == 'g' {
        key_note('G')
    } else if c == 'a' {
        key_note('A')
    } else if c == 'b' {
        key_note('B')
    } else {
        None
    }
}

pub open spec fn chord_notes() -> Seq<NoteEvent> {
    seq![event(60, 80), event(64, 70), event(67, 60)]
}

pub open spec fn scale_notes() -> Seq<NoteEvent> {
    seq![
        event(60, 80),
        event(62, 75),
        event(64, 70),
        event(65, 65),
        event(67, 60),
        event(69, 55),
        event(71, 50),
        event(72, 50),
    ]
}

/// The notes that a timed command plays: one note name, CHORD (C, E and G),
/// or SCALE (C D E F G A B and the C above).
pub open spec fn timed_notes_of(name: Seq<char>) -> Option<Seq<NoteEvent>> {
    if name.len() == 1 && key_note(name[0]) is Some {
        Some(seq![key_note(name[0])->0])
    } else if name == seq!['C', 'H', 'O', 'R', 'D'] {
        Some(chord_notes())
    } else if name == seq!['S', 'C', 'A', 'L', 'E'] {
        Some(scale_notes())
    } else {
        None
    }
}

/// Whether `a` and `b` hold the same characters.
fn same_text(a: &str, b: &str) -> (r: bool)
    ensures
        r == (a@ == b@),
{
    let n = a.unicode_len();
    if n != b.unicode_len() {
        return false;
    }
    let mut i: usize = 0;
    while i < n
        invariant
            n == a@.len() == b@.len(),
            i <= n,
            forall|k: int| 0 <= k < i ==> a@[k] == b@[k],
        decreases n - i,
    {
        if a.get_char(i) != b.get_char(i) {
            return false;
        }
        i = i + 1;
    }
    assert(a@ =~= b@);
    true
}

/// The notes that the timed command `name` plays, or `None` for a name that
/// plays nothing.
pub fn timed_notes(name: &str) -> (r: Option<Vec<NoteEvent>>)
    ensures
        match r {
            Some(v) => timed_notes_of(name@) == Some(v@),
            None => timed_notes_of(name@) is None,
        },
{
    proof {
        reveal_strlit("CHORD");
        reveal_strlit("SCALE");
        assert("CHORD"@ =~= seq!['C', 'H', 'O', 'R', 'D']);
        assert("SCALE"@ =~= seq!['S', 'C', 'A', 'L', 'E']);
    }
    if name.unicode_len() == 1 {
        match note_for_key(name.get_char(0)) {
            Some(e) => {
                let v = vec![e];
                assert(v@ =~= seq![e]);
                return Some(v);
            },
            None => {},
        }
    }
    if same_text(name, "CHORD") {
        let v = vec![
            NoteEvent { note: 60, velocity_percent: 80 },
            NoteEvent { note: 64, velocity_percent: 70 },
            NoteEvent { note: 67, velocity_percent: 60 },
        ];
        assert(v@ =~= chord_notes());
        Some(v)
    } else if same_text(name, "SCALE") {
        let v = vec![
            NoteEvent { note: 60, velocity_percent: 80 },
            NoteEvent { note: 62, velocity_percent: 75 },
            NoteEvent { note: 64, velocity_percent: 70 },
            NoteEvent { note: 65, velocity_percent: 65 },
            NoteEvent { note: 67, velocity_percent: 60 },
            NoteEvent { note: 69, velocity_percent: 55 },
            NoteEvent { note: 71, velocity_percent: 50 },
            NoteEvent { note: 72, velocity_percent: 50 },
        ];
        assert(v@ =~= scale_notes());
        Some(v)
    } else {
        None
    }
}

/// A console command.
#[derive(Debug)]
pub enum Command {
    /// Start one note and hold it.
    Play(NoteEvent),
    /// Release every note.
    StopAll,
    /// List the notes that are held.
    ShowActive,
    /// Leave the console.
    Quit,
    /// Set the blend between the engines to step `n` of 1 (additive only)
    /// to 9 (FM only).
    Blend(u8),
    /// Apply the preset envelope.
    EnvelopePreset,
    /// Apply the preset filter.
    FilterPreset,
    /// Play the notes named by the first word for the time that the second
    /// word gives in seconds.
    Timed(String, String),
    /// Anything else.
    Unknown,
}

/// The command that a line of the single word `w` gives.
pub open spec fn keyword_command(w: Seq<char>) -> Command {
    if w.len() == 1 {
        let c = w[0];
        if play_key(c) is Some {
            Command::Play(play_key(c)->0)
        } else if c == 's' {
            Command::StopAll
        } else if c == 'p' {
            Command::ShowActive
        } else if c == 'q' {
            Command::Quit
        } else if '1' <= c <= '9' {
            Command::Blend((c as u32 - '0' as u32) as u8)
        } else {
            Command::Unknown
        }
    } else if w == seq!['e', 'n', 'v'] {
        Command::EnvelopePreset
    } else if w == seq!['f', 'i', 'l', 't', 'e', 'r'] {
        Command::FilterPreset
    } else {
        Command::Unknown
    }
}

/// The command that a line whose words are `ws` gives, for any number of
/// words but two.
pub open spec fn untimed_command(ws: Seq<Seq<char>>) -> Command {
    if ws.len() == 1 {
        keyword_command(ws[0])
    } else {
        Command::Unknown
    }
}

/// The lower-case key `c` as a note, or `None` for a key that plays none.
fn play_key_note(c: char) -> (r: Option<NoteEvent>)
    ensures
        r == play_key(c),
{
    match c {
        'c' => note_for_key('C'),
        'd' => note_for_key('D'),
        'e' => note_for_key('E'),
        'f' => note_for_key('F'),
        'g' => note_for_key('G'),
        'a' => note_for_key('A'),
        'b' => note_for_key('B'),
        _ => None,
    }
}

/// The command of the single word `w`.
fn parse_keyword(w: &str) -> (r: Command)
    ensures
        r == keyword_command(w@),
{
    proof {
        reveal_strlit("env");
        reveal_strlit("filter");
        assert("env"@ =~= seq!['e', 'n', 'v']);
        assert("filter"@ =~= seq!['f', 'i', 'l', 't', 'e', 'r']);
    }
    if w.unicode_len() == 1 {
        let c = w.get_char(0);
        match play_key_note(c) {
            Some(e) => Command::Play(e),
            None => {
                if c == 's' {
                    Command::StopAll
                } else if c == 'p' {
                    Command::ShowActive
                } else if c == 'q' {
                    Command::Quit
                } else if '1' <= c && c <= '9' {
                    Command::Blend((c as u32 - '0' as u32) as u8)
                } else {
                    Command::Unknown
                }
            },
        }
    } else if same_text(w, "env") {
        Command::EnvelopePreset
    } else if same_text(w, "filter") {
        Command::FilterPreset
    } else {
        Command::Unknown
    }
}

/// Reads one console line. Whitespace around and between the words does not
/// matter.
pub fn parse_command(line: &str) -> (r: Command)
    ensures
        words(line@).len() == 2 ==> (r matches Command::Timed(name, duration) && name@ == words(
            line@,
        )[0] && duration@ == words(line@)[1]),
        words(line@).len() != 2 ==> r == untimed_command(words(line@)),
{
    match parse_custom_duration(line) {
        Some((name, duration)) => Command::Timed(name, duration),
        None => {
            let ws = split_words(line);
            if ws.len() == 1 {
                parse_keyword(ws[0].as_str())
            } else {
                Command::Unknown
            }
        },
    }
}

} // verus!

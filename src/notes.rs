use crate::config::ConfigError;
use vstd::prelude::*;

verus! {

/// A labeled musical note and its canonical frequency in millihertz.
#[derive(Debug)]
pub struct Note {
    pub label: String,
    pub millihertz: u64,
}

impl Note {
    pub fn new(label: &str, millihertz: u64) -> (r: Note)
        ensures
            r.label@ == label@,
            r.millihertz == millihertz,
    {
        broadcast use vstd::string::group_string_axioms;

        Note { label: label.to_string(), millihertz }
    }
}

/// Distance between two frequencies.
pub open spec fn distance(a: u64, b: u64) -> nat {
    if a >= b {
        (a - b) as nat
    } else {
        (b - a) as nat
    }
}

/// Index of the entry among the first `n` of `notes` closest to `f`; ties go
/// to the earliest entry.
pub open spec fn nearest_of(notes: Seq<Note>, f: u64, n: nat) -> nat
    decreases n,
{
    if n <= 1 {
        0
    } else {
        let p = nearest_of(notes, f, (n - 1) as nat);
        if distance(notes[n - 1].millihertz, f) < distance(notes[p as int].millihertz, f) {
            (n - 1) as nat
        } else {
            p
        }
    }
}

/// The nearest entry is no farther from `f` than any other, and strictly
/// nearer than every earlier one.
pub proof fn lemma_nearest_is_closest(notes: Seq<Note>, f: u64, n: nat)
    requires
        0 < n <= notes.len(),
    ensures
        nearest_of(notes, f, n) < n,
        forall|j: int|
            0 <= j < n ==> distance(notes[nearest_of(notes, f, n) as int].millihertz, f)
                <= distance(#[trigger] notes[j].millihertz, f),
        forall|j: int|
            0 <= j < nearest_of(notes, f, n) ==> distance(
                notes[nearest_of(notes, f, n) as int].millihertz,
                f,
            ) < distance(#[trigger] notes[j].millihertz, f),
    decreases n,
{
    if n > 1 {
        lemma_nearest_is_closest(notes, f, (n - 1) as nat);
    }
}

/// Labels of the reference table, C3 and then C4 up to G#5.
pub open spec fn standard_labels() -> Seq<Seq<char>> {
    seq![
        "C3"@, "C4"@, "C#4"@, "D4"@, "D#4"@, "E4"@, "F4"@, "F#4"@, "G4"@, "G#4"@, "A4"@,
        "A#4"@, "B4"@, "C5"@, "C#5"@, "D5"@, "D#5"@, "E5"@, "F5"@, "F#5"@, "G5"@, "G#5"@,
    ]
}

/// Frequencies in millihertz of the reference table, A4 = 440 Hz.
pub open spec fn standard_frequencies() -> Seq<u64> {
    seq![
        130810u64, 261630, 277180, 293660, 311130, 329630, 349230, 369990, 392000, 415300,
        440000, 466160, 493880, 523250, 554370, 587330, 622250, 659250, 698460, 739990, 783990,
        830610,
    ]
}

/// Read-only mapping from note labels to canonical frequencies; never empty.
pub struct NoteTable {
    notes: Vec<Note>,
}

impl NoteTable {
    /// The entries, in table order.
    pub closed spec fn entries(&self) -> Seq<Note> {
        self.notes@
    }

    pub open spec fn wf(&self) -> bool {
        self.entries().len() > 0
    }

    /// A table of the given entries; an empty one is refused.
    pub fn new(notes: Vec<Note>) -> (r: Result<NoteTable, ConfigError>)
        ensures
            r is Err <==> notes@.len() == 0,
            r is Err ==> r == Err::<NoteTable, ConfigError>(ConfigError::EmptyNoteTable),
            r matches Ok(t) ==> t.wf() && t.entries() == notes@,
    {
        if notes.len() == 0 {
            return Err(ConfigError::EmptyNoteTable);
        }
        Ok(NoteTable { notes })
    }

    /// The reference table: C3, then the semitones C4 to G#5.
    pub fn standard() -> (r: NoteTable)
        ensures
            r.wf(),
            r.entries().len() == 22,
            forall|i: int|
                0 <= i < 22 ==> (#[trigger] r.entries()[i]).label@ == standard_labels()[i]
                    && r.entries()[i].millihertz == standard_frequencies()[i],
    {
        let mut notes: Vec<Note> = Vec::with_capacity(22);
        notes.push(Note::new("C3", 130810));
        notes.push(Note::new("C4", 261630));
        notes.push(Note::new("C#4", 277180));
        notes.push(Note::new("D4", 293660));
        notes.push(Note::new("D#4", 311130));
        notes.push(Note::new("E4", 329630));
        notes.push(Note::new("F4", 349230));
        notes.push(Note::new("F#4", 369990));
        notes.push(Note::new("G4", 392000));
        notes.push(Note::new("G#4", 415300));
        notes.push(Note::new("A4", 440000));
        notes.push(Note::new("A#4", 466160));
        notes.push(Note::new("B4", 493880));
        notes.push(Note::new("C5", 523250));
        notes.push(Note::new("C#5", 554370));
        notes.push(Note::new("D5", 587330));
        notes.push(Note::new("D#5", 622250));
        notes.push(Note::new("E5", 659250));
        notes.push(Note::new("F5", 698460));
        notes.push(Note::new("F#5", 739990));
        notes.push(Note::new("G5", 783990));
        notes.push(Note::new("G#5", 830610));
        NoteTable { notes }
    }

    pub fn len(&self) -> (r: usize)
        ensures
            r == self.entries().len(),
    {
        self.notes.len()
    }

    pub fn get(&self, i: usize) -> (r: &Note)
        requires
            i < self.entries().len(),
        ensures
            *r == self.entries()[i as int],
    {
        &self.notes[i]
    }

    /// Index of the entry closest to `millihertz`, ties going to the earliest.
    pub fn nearest(&self, millihertz: u64) -> (r: usize)
        requires
            self.wf(),
        ensures
            r == nearest_of(self.entries(), millihertz, self.entries().len()),
            r < self.entries().len(),
    {
        let n = self.notes.len();
        let mut best: usize = 0;
        let mut best_dist: u64 = abs_diff(self.notes[0].millihertz, millihertz);
        let mut i: usize = 1;
        while i < n
            invariant
                n == self.entries().len(),
                1 <= i <= n,
                best == nearest_of(self.entries(), millihertz, i as nat),
                best < i,
                best_dist == distance(self.entries()[best as int].millihertz, millihertz),
            decreases n - i,
        {
            let d = abs_diff(self.notes[i].millihertz, millihertz);
            if d < best_dist {
                best = i;
                best_dist = d;
            }
            i = i + 1;
        }
        best
    }
}

fn abs_diff(a: u64, b: u64) -> (r: u64)
    ensures
        r == distance(a, b),
{
    if a >= b {
        a - b
    } else {
        b - a
    }
}

} // verus!

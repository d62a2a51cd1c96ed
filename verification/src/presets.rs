use vstd::prelude::*;

verus! {

/// A string of an instrument: the label shown on its button and the MIDI
/// number of the note it is tuned to.
#[derive(Debug, Clone, Copy)]
pub struct InstrumentString {
    pub label: &'static str,
    pub midi: i32,
}

impl InstrumentString {
    /// The string as plain values: the label's characters and the MIDI number.
    pub open spec fn view(&self) -> (Seq<char>, i32) {
        (self.label@, self.midi)
    }
}

/// A tuning as plain values, one entry per string.
pub open spec fn tuning_view(strings: Seq<InstrumentString>) -> Seq<(Seq<char>, i32)> {
    strings.map_values(|s: InstrumentString| s.view())
}

/// Standard mandolin tuning, low to high: G3, D4, A4, E5.
pub open spec fn mandolin_tuning() -> Seq<(Seq<char>, i32)> {
    seq![(seq!['G'], 55i32), (seq!['D'], 62i32), (seq!['A'], 69i32), (seq!['E'], 76i32)]
}

/// Standard guitar tuning, low to high: E2, A2, D3, G3, B3, E4.
pub open spec fn guitar_tuning() -> Seq<(Seq<char>, i32)> {
    seq![
        (seq!['E'], 40i32),
        (seq!['A'], 45i32),
        (seq!['D'], 50i32),
        (seq!['G'], 55i32),
        (seq!['B'], 59i32),
        (seq!['E'], 64i32),
    ]
}

/// The strings of a tuning are ordered from the lowest note to the highest.
pub open spec fn ordered_low_to_high(t: Seq<(Seq<char>, i32)>) -> bool {
    forall|i: int, j: int| 0 <= i < j < t.len() ==> t[i].1 < t[j].1
}

/// Returns the standard tuning strings for mandolin, ordered low to high.
pub fn mandolin_strings() -> (r: Vec<InstrumentString>)
    ensures
        tuning_view(r@) == mandolin_tuning(),
{
    proof {
        reveal_strlit("G");
        reveal_strlit("D");
        reveal_strlit("A");
        reveal_strlit("E");
    }
    let r = vec![
        InstrumentString { label: "G", midi: 55 },
        InstrumentString { label: "D", midi: 62 },
        InstrumentString { label: "A", midi: 69 },
        InstrumentString { label: "E", midi: 76 },
    ];
    assert("G"@ =~= seq!['G']);
    assert("D"@ =~= seq!['D']);
    assert("A"@ =~= seq!['A']);
    assert("E"@ =~= seq!['E']);
    assert(tuning_view(r@) =~= mandolin_tuning());
    r
}

/// Returns the standard tuning strings for guitar, ordered low to high.
pub fn guitar_strings() -> (r: Vec<InstrumentString>)
    ensures
        tuning_view(r@) == guitar_tuning(),
{
    proof {
        reveal_strlit("E");
        reveal_strlit("A");
        reveal_strlit("D");
        reveal_strlit("G");
        reveal_strlit("B");
    }
    let r = vec![
        InstrumentString { label: "E", midi: 40 },
        InstrumentString { label: "A", midi: 45 },
        InstrumentString { label: "D", midi: 50 },
        InstrumentString { label: "G", midi: 55 },
        InstrumentString { label: "B", midi: 59 },
        InstrumentString { label: "E", midi: 64 },
    ];
    assert("E"@ =~= seq!['E']);
    assert("A"@ =~= seq!['A']);
    assert("D"@ =~= seq!['D']);
    assert("G"@ =~= seq!['G']);
    assert("B"@ =~= seq!['B']);
    assert(tuning_view(r@) =~= guitar_tuning());
    r
}

/// Both preset tunings list their strings from the lowest note to the highest.
pub proof fn lemma_presets_ordered()
    ensures
        ordered_low_to_high(mandolin_tuning()),
        ordered_low_to_high(guitar_tuning()),
{
}

/// The search for the closest string starts from the largest finite
/// distance: a string whose distance key is not below this one is never
/// chosen. (Keys are the bit patterns of non-negative distances, which
/// order them as the distances are ordered; this one is the pattern of
/// the largest finite distance.)
pub const DISTANCE_KEY_LIMIT: u64 = 0x7FEF_FFFF_FFFF_FFFFu64;

/// `i` is the index of the first smallest key, and that key is below the limit.
pub open spec fn is_closest(keys: Seq<u64>, i: int) -> bool {
    &&& 0 <= i < keys.len()
    &&& keys[i] < DISTANCE_KEY_LIMIT
    &&& forall|j: int| 0 <= j < keys.len() ==> keys[i] <= #[trigger] keys[j]
    &&& forall|j: int| 0 <= j < i ==> keys[i] < #[trigger] keys[j]
}

/// The string that is closest to the detected pitch, given one distance
/// key per string: the first string with the smallest key, unless no key is
/// below `DISTANCE_KEY_LIMIT`.
pub fn closest_string_index(keys: &Vec<u64>) -> (r: Option<usize>)
    ensures
        r is None <==> forall|j: int| 0 <= j < keys@.len() ==> #[trigger] keys@[j]
            >= DISTANCE_KEY_LIMIT,
        r matches Some(i) ==> is_closest(keys@, i as int),
{
    let mut best: Option<usize> = None;
    let mut best_key: u64 = DISTANCE_KEY_LIMIT;
    let mut i: usize = 0;
    while i < keys.len()
        invariant
            i <= keys@.len(),
            best is None ==> best_key == DISTANCE_KEY_LIMIT,
            best is None <==> forall|j: int| 0 <= j < i ==> #[trigger] keys@[j] >= DISTANCE_KEY_LIMIT,
            best matches Some(b) ==> b < i && keys@[b as int] == best_key,
            best_key <= DISTANCE_KEY_LIMIT,
            best matches Some(b) ==> best_key < DISTANCE_KEY_LIMIT,
            forall|j: int| 0 <= j < i ==> best_key <= #[trigger] keys@[j],
            best matches Some(b) ==> forall|j: int| 0 <= j < b ==> best_key < #[trigger] keys@[j],
        decreases keys@.len() - i,
    {
        if keys[i] < best_key {
            best_key = keys[i];
            best = Some(i);
        }
        i = i + 1;
    }
    best
}

} // verus!

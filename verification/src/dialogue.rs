//! What a crew member says when the player comes near: one line, picked by the
//! crew member's name, their psychological needs and the bottleneck of their
//! consciousness. The float thresholds behind the needs and the level are
//! tested by the caller, which hands over their outcomes.
use vstd::prelude::*;
use vstd::string::{StrSliceExecFns, StringExecFns};

verus! {

/// The needs that pick a line, each already tested against its threshold.
#[derive(Debug, Clone, Copy, PartialEq, Eq, Structural)]
pub struct NeedFlags {
    /// Allostatic load above the burnout threshold.
    pub burnout: bool,
    /// Social satiation below 0.15.
    pub lonely: bool,
    /// Engagement below 0.2.
    pub disengaged: bool,
}

/// Whether `needle` occurs in `haystack` starting at `start`.
pub open spec fn occurs_at(haystack: Seq<char>, needle: Seq<char>, start: int) -> bool {
    &&& 0 <= start
    &&& start + needle.len() <= haystack.len()
    &&& haystack.subrange(start, start + needle.len()) == needle
}

/// Whether `needle` occurs anywhere in `haystack`.
pub open spec fn contains_chars(haystack: Seq<char>, needle: Seq<char>) -> bool {
    exists|start: int| #[trigger] occurs_at(haystack, needle, start)
}

/// A name is found wherever it stands in a longer one, at the start, in the
/// middle or at the end.
pub proof fn lemma_contains_chars_anywhere(before: Seq<char>, needle: Seq<char>, after: Seq<char>)
    ensures
        contains_chars(before + needle + after, needle),
{
    let h = before + needle + after;
    assert(h.subrange(before.len() as int, (before.len() + needle.len()) as int) =~= needle);
    assert(occurs_at(h, needle, before.len() as int));
}

/// A name longer than the text it is looked for in is never found there.
pub proof fn lemma_contains_chars_needs_room(haystack: Seq<char>, needle: Seq<char>)
    requires
        needle.len() > haystack.len(),
    ensures
        !contains_chars(haystack, needle),
{
}

/// The characters of `s`, in order.
fn chars_of(s: &str) -> (v: Vec<char>)
    ensures
        v@ == s@,
{
    let n = s.unicode_len();
    let mut v: Vec<char> = Vec::new();
    let mut i: usize = 0;
    while i < n
        invariant
            n == s@.len(),
            i <= n,
            v@ == s@.subrange(0, i as int),
        decreases n - i,
    {
        v.push(s.get_char(i));
        i = i + 1;
    }
    v
}

/// Whether `haystack` holds `needle` as a run of consecutive characters.
pub fn str_contains(haystack: &str, needle: &str) -> (r: bool)
    ensures
        r == contains_chars(haystack@, needle@),
{
    let h = chars_of(haystack);
    let n = chars_of(needle);
    if n.len() > h.len() {
        assert forall|start: int| !occurs_at(haystack@, needle@, start) by {}
        return false;
    }
    let last = h.len() - n.len();
    let mut start: usize = 0;
    loop
        invariant
            h@ == haystack@,
            n@ == needle@,
            h@.len() <= usize::MAX,
            last == h@.len() - n@.len(),
            start <= last,
            forall|s: int| 0 <= s < start ==> !#[trigger] occurs_at(haystack@, needle@, s),
        ensures
            forall|s: int| !#[trigger] occurs_at(haystack@, needle@, s),
        decreases last - start,
    {
        let mut k: usize = 0;
        let mut same = true;
        while k < n.len()
            invariant
                h@ == haystack@,
                n@ == needle@,
                h@.len() <= usize::MAX,
                start <= last,
                last == h@.len() - n@.len(),
                k <= n@.len(),
                same == (forall|j: int| 0 <= j < k ==> h@[start + j] == n@[j]),
            decreases n@.len() - k,
        {
            if h[start + k] != n[k] {
                same = false;
            }
            k = k + 1;
        }
        if same {
            assert(haystack@.subrange(start as int, start + needle@.len()) =~= needle@);
            assert(occurs_at(haystack@, needle@, start as int));
            return true;
        }
        assert(!occurs_at(haystack@, needle@, start as int)) by {
            if occurs_at(haystack@, needle@, start as int) {
                let j = choose|j: int| 0 <= j < n@.len() && h@[start + j] != n@[j];
                assert(haystack@.subrange(start as int, start + needle@.len())[j] == h@[start + j]);
            }
        }
        if start == last {
            break;
        }
        start = start + 1;
    }
    false
}

/// Whether `a` and `b` hold the same characters.
pub fn str_equals(a: &str, b: &str) -> (r: bool)
    ensures
        r == (a@ == b@),
{
    let x = chars_of(a);
    let y = chars_of(b);
    if x.len() != y.len() {
        return false;
    }
    let mut i: usize = 0;
    while i < x.len()
        invariant
            x@ == a@,
            y@ == b@,
            x@.len() == y@.len(),
            i <= x@.len(),
            forall|j: int| 0 <= j < i ==> x@[j] == y@[j],
        decreases x@.len() - i,
    {
        if x[i] != y[i] {
            return false;
        }
        i = i + 1;
    }
    assert(a@ =~= b@);
    true
}

/// What Kael says after the name.
pub open spec fn kael_speech(bottleneck: Seq<char>, needs: Option<NeedFlags>) -> Seq<char> {
    if needs matches Some(n) && n.burnout {
        ": \"The junction grids... they're completely fried. I can't keep them stable alone!\""@
    } else if needs matches Some(n) && n.lonely {
        ": \"Does anyone even care about the life support status? I'm talking to empty rooms.\""@
    } else if bottleneck == "phi"@ {
        ": \"If we don't fix the power loops, the consciousness coupling will collapse.\""@
    } else if bottleneck == "working_memory"@ {
        ": \"What was the sequence for the water pump purge again?\""@
    } else if bottleneck == "attention"@ {
        ": \"The voltage is fluctuating too fast. I can't focus on the schematics.\""@
    } else {
        ": \"Checking the junction status. We need more voltage to keep the system online.\""@
    }
}

fn kael_line(bottleneck: &str, needs: Option<NeedFlags>) -> (r: &'static str)
    ensures
        r@ == kael_speech(bottleneck@, needs),
{
    if needs matches Some(n) && n.burnout {
        ": \"The junction grids... they're completely fried. I can't keep them stable alone!\""
    } else if needs matches Some(n) && n.lonely {
        ": \"Does anyone even care about the life support status? I'm talking to empty rooms.\""
    } else if str_equals(bottleneck, "phi") {
        ": \"If we don't fix the power loops, the consciousness coupling will collapse.\""
    } else if str_equals(bottleneck, "working_memory") {
        ": \"What was the sequence for the water pump purge again?\""
    } else if str_equals(bottleneck, "attention") {
        ": \"The voltage is fluctuating too fast. I can't focus on the schematics.\""
    } else {
        ": \"Checking the junction status. We need more voltage to keep the system online.\""
    }
}

/// What Mira says after the name.
pub open spec fn mira_speech(bottleneck: Seq<char>, needs: Option<NeedFlags>) -> Seq<char> {
    if needs matches Some(n) && n.burnout {
        ": \"So many wounded... the trauma feed is off the charts. I need a break.\""@
    } else if needs matches Some(n) && n.lonely {
        ": \"I'm supposed to heal people, but everyone is shutting me out.\""@
    } else if bottleneck == "phi"@ {
        ": \"Biometric stress is peaking. Please, everyone stay calm and breathe.\""@
    } else if bottleneck == "embodiment"@ {
        ": \"My hands are shaking... is this real feedback or phantom trauma?\""@
    } else if bottleneck == "knowledge"@ {
        ": \"I need clean water. If the pump is sabotaged, infection rates will spike.\""@
    } else {
        ": \"Check your biometrics. Don't let your stress compromise the coupling.\""@
    }
}

fn mira_line(bottleneck: &str, needs: Option<NeedFlags>) -> (r: &'static str)
    ensures
        r@ == mira_speech(bottleneck@, needs),
{
    if needs matches Some(n) && n.burnout {
        ": \"So many wounded... the trauma feed is off the charts. I need a break.\""
    } else if needs matches Some(n) && n.lonely {
        ": \"I'm supposed to heal people, but everyone is shutting me out.\""
    } else if str_equals(bottleneck, "phi") {
        ": \"Biometric stress is peaking. Please, everyone stay calm and breathe.\""
    } else if str_equals(bottleneck, "embodiment") {
        ": \"My hands are shaking... is this real feedback or phantom trauma?\""
    } else if str_equals(bottleneck, "knowledge") {
        ": \"I need clean water. If the pump is sabotaged, infection rates will spike.\""
    } else {
        ": \"Check your biometrics. Don't let your stress compromise the coupling.\""
    }
}

/// What Soren says after the name.
pub open spec fn soren_speech(bottleneck: Seq<char>, needs: Option<NeedFlags>) -> Seq<char> {
    if needs matches Some(n) && n.burnout {
        ": \"The logs... they're being erased. Everything we built... gone.\""@
    } else if needs matches Some(n) && n.lonely {
        ": \"Isolated in the archive stacks. Only dead voices for company.\""@
    } else if bottleneck == "phi"@ {
        ": \"This division of consciousness is documented in the ancient worldline files.\""@
    } else if bottleneck == "knowledge"@ {
        ": \"The Chronicle knows our choices. Nothing is forgotten.\""@
    } else if bottleneck == "broadcast"@ {
        ": \"I need to transmit this signal before the null ecology intercepts it.\""@
    } else {
        ": \"I am scanning the historical anchors for precedents in the database.\""@
    }
}

fn soren_line(bottleneck: &str, needs: Option<NeedFlags>) -> (r: &'static str)
    ensures
        r@ == soren_speech(bottleneck@, needs),
{
    if needs matches Some(n) && n.burnout {
        ": \"The logs... they're being erased. Everything we built... gone.\""
    } else if needs matches Some(n) && n.lonely {
        ": \"Isolated in the archive stacks. Only dead voices for company.\""
    } else if str_equals(bottleneck, "phi") {
        ": \"This division of consciousness is documented in the ancient worldline files.\""
    } else if str_equals(bottleneck, "knowledge") {
        ": \"The Chronicle knows our choices. Nothing is forgotten.\""
    } else if str_equals(bottleneck, "broadcast") {
        ": \"I need to transmit this signal before the null ecology intercepts it.\""
    } else {
        ": \"I am scanning the historical anchors for precedents in the database.\""
    }
}

/// What Jack says after the name.
pub open spec fn jack_speech(bottleneck: Seq<char>, needs: Option<NeedFlags>) -> Seq<char> {
    if needs matches Some(n) && n.burnout {
        ": \"Drones everywhere! We're cornered! Get that door open!\""@
    } else if needs matches Some(n) && n.lonely {
        ": \"Where is the backup team? We're on our own out here.\""@
    } else if bottleneck == "attention"@ {
        ": \"Keep your eyes open. The null ecology is scanning this room.\""@
    } else if bottleneck == "working_memory"@ {
        ": \"I'm losing track of the patrol routes. Need to double back.\""@
    } else {
        ": \"Secure the perimeter. I'll cover the pump area while you repair.\""@
    }
}

fn jack_line(bottleneck: &str, needs: Option<NeedFlags>) -> (r: &'static str)
    ensures
        r@ == jack_speech(bottleneck@, needs),
{
    if needs matches Some(n) && n.burnout {
        ": \"Drones everywhere! We're cornered! Get that door open!\""
    } else if needs matches Some(n) && n.lonely {
        ": \"Where is the backup team? We're on our own out here.\""
    } else if str_equals(bottleneck, "attention") {
        ": \"Keep your eyes open. The null ecology is scanning this room.\""
    } else if str_equals(bottleneck, "working_memory") {
        ": \"I'm losing track of the patrol routes. Need to double back.\""
    } else {
        ": \"Secure the perimeter. I'll cover the pump area while you repair.\""
    }
}

/// What PR-4 says after the name.
pub open spec fn pr4_speech(bottleneck: Seq<char>, needs: Option<NeedFlags>) -> Seq<char> {
    if needs matches Some(n) && n.burnout {
        ": \"WARNING: Actuator thermal overload. Self-preservation protocol active.\""@
    } else if bottleneck == "phi"@ {
        ": \"Error: Phi levels deviating from target parameters. Re-calibrating.\""@
    } else if bottleneck == "embodiment"@ {
        ": \"Chassis integrity at 98%. Ready for hardware maintenance task.\""@
    } else if bottleneck == "working_memory"@ {
        ": \"Buffer overflow: memory allocation failed. Repeating task list.\""@
    } else {
        ": \"Beep. Ready to assist with power grid configuration and maintenance.\""@
    }
}

fn pr4_line(bottleneck: &str, needs: Option<NeedFlags>) -> (r: &'static str)
    ensures
        r@ == pr4_speech(bottleneck@, needs),
{
    if needs matches Some(n) && n.burnout {
        ": \"WARNING: Actuator thermal overload. Self-preservation protocol active.\""
    } else if str_equals(bottleneck, "phi") {
        ": \"Error: Phi levels deviating from target parameters. Re-calibrating.\""
    } else if str_equals(bottleneck, "embodiment") {
        ": \"Chassis integrity at 98%. Ready for hardware maintenance task.\""
    } else if str_equals(bottleneck, "working_memory") {
        ": \"Buffer overflow: memory allocation failed. Repeating task list.\""
    } else {
        ": \"Beep. Ready to assist with power grid configuration and maintenance.\""
    }
}

/// What Nadia says after the name.
pub open spec fn nadia_speech(bottleneck: Seq<char>, needs: Option<NeedFlags>) -> Seq<char> {
    if needs matches Some(n) && n.burnout {
        ": \"The trade-offs are too steep. We are sacrificing too much for this colony!\""@
    } else if needs matches Some(n) && n.lonely {
        ": \"Nobody trusts my negotiations anymore. I'm talking to walls.\""@
    } else if bottleneck == "phi"@ {
        ": \"We must balance resources. If we overdrive the factory, the entropy will kill us.\""@
    } else if bottleneck == "knowledge"@ {
        ": \"The factions are watching how we handle the water crisis. We need a vote.\""@
    } else {
        ": \"We can secure a deal if we keep the power grid stable. Let's act logically.\""@
    }
}

fn nadia_line(bottleneck: &str, needs: Option<NeedFlags>) -> (r: &'static str)
    ensures
        r@ == nadia_speech(bottleneck@, needs),
{
    if needs matches Some(n) && n.burnout {
        ": \"The trade-offs are too steep. We are sacrificing too much for this colony!\""
    } else if needs matches Some(n) && n.lonely {
        ": \"Nobody trusts my negotiations anymore. I'm talking to walls.\""
    } else if str_equals(bottleneck, "phi") {
        ": \"We must balance resources. If we overdrive the factory, the entropy will kill us.\""
    } else if str_equals(bottleneck, "knowledge") {
        ": \"The factions are watching how we handle the water crisis. We need a vote.\""
    } else {
        ": \"We can secure a deal if we keep the power grid stable. Let's act logically.\""
    }
}

/// What Leo says after the name.
pub open spec fn leo_speech(bottleneck: Seq<char>, needs: Option<NeedFlags>) -> Seq<char> {
    if needs matches Some(n) && n.burnout {
        ": \"I don't know what to do! It's all falling apart and I'm scared!\""@
    } else if needs matches Some(n) && n.lonely {
        ": \"Why is everyone ignoring me? I just want to help.\""@
    } else if bottleneck == "phi"@ {
        ": \"Is my consciousness level high enough? I don't want to get caught by the Leviathan.\""@
    } else if bottleneck == "knowledge"@ {
        ": \"How do I use the repair tool? I'm trying my best...\""@
    } else if bottleneck == "working_memory"@ {
        ": \"Wait, what was Kael's instruction? I forgot...\""@
    } else {
        ": \"I'll watch the monitors. Tell me what needs doing, please.\""@
    }
}

fn leo_line(bottleneck: &str, needs: Option<NeedFlags>) -> (r: &'static str)
    ensures
        r@ == leo_speech(bottleneck@, needs),
{
    if needs matches Some(n) && n.burnout {
        ": \"I don't know what to do! It's all falling apart and I'm scared!\""
    } else if needs matches Some(n) && n.lonely {
        ": \"Why is everyone ignoring me? I just want to help.\""
    } else if str_equals(bottleneck, "phi") {
        ": \"Is my consciousness level high enough? I don't want to get caught by the Leviathan.\""
    } else if str_equals(bottleneck, "knowledge") {
        ": \"How do I use the repair tool? I'm trying my best...\""
    } else if str_equals(bottleneck, "working_memory") {
        ": \"Wait, what was Kael's instruction? I forgot...\""
    } else {
        ": \"I'll watch the monitors. Tell me what needs doing, please.\""
    }
}

/// What anyone else says at a level above 0.7, after the name.
pub open spec fn high_level_speech(bottleneck: Seq<char>) -> Seq<char> {
    if bottleneck == "phi"@ {
        ": \"I feel... integrated. Whole.\""@
    } else if bottleneck == "broadcast"@ {
        ": \"I can almost share what I know.\""@
    } else if bottleneck == "knowledge"@ {
        ": \"I understand more now.\""@
    } else if bottleneck == "embodiment"@ {
        ": \"My body feels real here.\""@
    } else {
        ": \"Something is shifting inside me.\""@
    }
}

fn high_level_line(bottleneck: &str) -> (r: &'static str)
    ensures
        r@ == high_level_speech(bottleneck@),
{
    if str_equals(bottleneck, "phi") {
        ": \"I feel... integrated. Whole.\""
    } else if str_equals(bottleneck, "broadcast") {
        ": \"I can almost share what I know.\""
    } else if str_equals(bottleneck, "knowledge") {
        ": \"I understand more now.\""
    } else if str_equals(bottleneck, "embodiment") {
        ": \"My body feels real here.\""
    } else {
        ": \"Something is shifting inside me.\""
    }
}

/// What anyone else says at a level above 0.4 and at most 0.7, after the name.
pub open spec fn middle_level_speech(bottleneck: Seq<char>) -> Seq<char> {
    if bottleneck == "phi"@ {
        ": \"Parts of me feel... disconnected.\""@
    } else if bottleneck == "broadcast"@ {
        ": \"I know something but can't express it.\""@
    } else if bottleneck == "working_memory"@ {
        ": \"I keep forgetting what I was doing.\""@
    } else if bottleneck == "attention"@ {
        ": \"I can't focus. Too much happening.\""@
    } else if bottleneck == "knowledge"@ {
        ": \"What IS this place? I need answers.\""@
    } else if bottleneck == "embodiment"@ {
        ": \"Am I really here? This doesn't feel real.\""@
    } else if bottleneck == "recurrence"@ {
        ": \"I can't think deeply enough about this.\""@
    } else if bottleneck == "synchrony"@ {
        ": \"We need to be together. Closer.\""@
    } else {
        ": \"...\""@
    }
}

fn middle_level_line(bottleneck: &str) -> (r: &'static str)
    ensures
        r@ == middle_level_speech(bottleneck@),
{
    if str_equals(bottleneck, "phi") {
        ": \"Parts of me feel... disconnected.\""
    } else if str_equals(bottleneck, "broadcast") {
        ": \"I know something but can't express it.\""
    } else if str_equals(bottleneck, "working_memory") {
        ": \"I keep forgetting what I was doing.\""
    } else if str_equals(bottleneck, "attention") {
        ": \"I can't focus. Too much happening.\""
    } else if str_equals(bottleneck, "knowledge") {
        ": \"What IS this place? I need answers.\""
    } else if str_equals(bottleneck, "embodiment") {
        ": \"Am I really here? This doesn't feel real.\""
    } else if str_equals(bottleneck, "recurrence") {
        ": \"I can't think deeply enough about this.\""
    } else if str_equals(bottleneck, "synchrony") {
        ": \"We need to be together. Closer.\""
    } else {
        ": \"...\""
    }
}

/// What anyone else says at a level of at most 0.4, after the name.
pub open spec fn low_level_speech(bottleneck: Seq<char>) -> Seq<char> {
    if bottleneck == "phi"@ {
        ": \"I'm falling apart...\""@
    } else if bottleneck == "broadcast"@ {
        ": \"HELP— I can't— nobody hears—\""@
    } else if bottleneck == "working_memory"@ {
        ": \"Where... who...\""@
    } else if bottleneck == "attention"@ {
        ": \"Everything is noise. NOISE.\""@
    } else if bottleneck == "knowledge"@ {
        ": \"I don't understand anything anymore.\""@
    } else if bottleneck == "embodiment"@ {
        ": \"I can't feel my hands.\""@
    } else {
        ": \"...please...\""@
    }
}

fn low_level_line(bottleneck: &str) -> (r: &'static str)
    ensures
        r@ == low_level_speech(bottleneck@),
{
    if str_equals(bottleneck, "phi") {
        ": \"I'm falling apart...\""
    } else if str_equals(bottleneck, "broadcast") {
        ": \"HELP— I can't— nobody hears—\""
    } else if str_equals(bottleneck, "working_memory") {
        ": \"Where... who...\""
    } else if str_equals(bottleneck, "attention") {
        ": \"Everything is noise. NOISE.\""
    } else if str_equals(bottleneck, "knowledge") {
        ": \"I don't understand anything anymore.\""
    } else if str_equals(bottleneck, "embodiment") {
        ": \"I can't feel my hands.\""
    } else {
        ": \"...please...\""
    }
}

/// What anyone but the named crew says, after the name: a line for burnout,
/// loneliness or disengagement first, then one by level tier and bottleneck.
pub open spec fn fallback_speech(bottleneck: Seq<char>, level_tier: u8, needs: Option<NeedFlags>) -> Seq<char> {
    if needs matches Some(n) && n.burnout {
        ": \"I can't keep this up... everything hurts.\""@
    } else if needs matches Some(n) && n.lonely {
        ": \"Does anyone even know I'm here?\""@
    } else if needs matches Some(n) && n.disengaged {
        ": \"...\""@
    } else if level_tier >= 2 {
        high_level_speech(bottleneck)
    } else if level_tier == 1 {
        middle_level_speech(bottleneck)
    } else {
        low_level_speech(bottleneck)
    }
}

fn fallback_line(bottleneck: &str, level_tier: u8, needs: Option<NeedFlags>) -> (r: &'static str)
    ensures
        r@ == fallback_speech(bottleneck@, level_tier, needs),
{
    if needs matches Some(n) && n.burnout {
        ": \"I can't keep this up... everything hurts.\""
    } else if needs matches Some(n) && n.lonely {
        ": \"Does anyone even know I'm here?\""
    } else if needs matches Some(n) && n.disengaged {
        ": \"...\""
    } else if level_tier >= 2 {
        high_level_line(bottleneck)
    } else if level_tier == 1 {
        middle_level_line(bottleneck)
    } else {
        low_level_line(bottleneck)
    }
}

/// What follows the speaker's name: the first crew member whose name occurs
/// in `name` (Kael, Mira, Soren, Jack, PR-4, Nadia, Leo, in that order)
/// speaks their own line; anyone else speaks the generic one.
pub open spec fn dialogue_speech(
    bottleneck: Seq<char>,
    level_tier: u8,
    name: Seq<char>,
    needs: Option<NeedFlags>,
) -> Seq<char> {
    if contains_chars(name, "Kael"@) {
        kael_speech(bottleneck, needs)
    } else if contains_chars(name, "Mira"@) {
        mira_speech(bottleneck, needs)
    } else if contains_chars(name, "Soren"@) {
        soren_speech(bottleneck, needs)
    } else if contains_chars(name, "Jack"@) {
        jack_speech(bottleneck, needs)
    } else if contains_chars(name, "PR-4"@) {
        pr4_speech(bottleneck, needs)
    } else if contains_chars(name, "Nadia"@) {
        nadia_speech(bottleneck, needs)
    } else if contains_chars(name, "Leo"@) {
        leo_speech(bottleneck, needs)
    } else {
        fallback_speech(bottleneck, level_tier, needs)
    }
}

/// The whole line: the speaker's name, then what they say.
pub open spec fn dialogue_line(
    bottleneck: Seq<char>,
    level_tier: u8,
    name: Seq<char>,
    needs: Option<NeedFlags>,
) -> Seq<char> {
    name + dialogue_speech(bottleneck, level_tier, name, needs)
}

/// Every line opens with the speaker's name, whoever speaks and whatever
/// their bottleneck, level and needs.
pub proof fn lemma_dialogue_line_opens_with_name(
    bottleneck: Seq<char>,
    level_tier: u8,
    name: Seq<char>,
    needs: Option<NeedFlags>,
)
    ensures
        name.is_prefix_of(dialogue_line(bottleneck, level_tier, name, needs)),
{
    assert(dialogue_line(bottleneck, level_tier, name, needs).subrange(0, name.len() as int)
        =~= name);
}

fn speech(bottleneck: &str, level_tier: u8, name: &str, needs: Option<NeedFlags>) -> (r: &'static str)
    ensures
        r@ == dialogue_speech(bottleneck@, level_tier, name@, needs),
{
    if str_contains(name, "Kael") {
        kael_line(bottleneck, needs)
    } else if str_contains(name, "Mira") {
        mira_line(bottleneck, needs)
    } else if str_contains(name, "Soren") {
        soren_line(bottleneck, needs)
    } else if str_contains(name, "Jack") {
        jack_line(bottleneck, needs)
    } else if str_contains(name, "PR-4") {
        pr4_line(bottleneck, needs)
    } else if str_contains(name, "Nadia") {
        nadia_line(bottleneck, needs)
    } else if str_contains(name, "Leo") {
        leo_line(bottleneck, needs)
    } else {
        fallback_line(bottleneck, level_tier, needs)
    }
}

/// The line a crew member speaks, from their consciousness bottleneck, the
/// tier of their consciousness level (2 or more above 0.7, 1 above 0.4, 0 at
/// most 0.4) and their needs, when they have any.
pub fn bottleneck_to_dialogue(
    bottleneck: &str,
    level_tier: u8,
    name: &str,
    needs: Option<NeedFlags>,
) -> (r: String)
    ensures
        r@ == dialogue_line(bottleneck@, level_tier, name@, needs),
{
    let mut line = name.to_owned();
    line.append(speech(bottleneck, level_tier, name, needs));
    line
}

/// The speaker's needs report burnout.
pub open spec fn burned_out(needs: Option<NeedFlags>) -> bool {
    needs is Some && needs->Some_0.burnout
}

/// The speaker's needs report loneliness.
pub open spec fn lonely(needs: Option<NeedFlags>) -> bool {
    needs is Some && needs->Some_0.lonely
}

/// The speaker's needs report disengagement.
pub open spec fn disengaged(needs: Option<NeedFlags>) -> bool {
    needs is Some && needs->Some_0.disengaged
}

/// No need of the speaker asks for a line of its own.
pub open spec fn settled(needs: Option<NeedFlags>) -> bool {
    !burned_out(needs) && !lonely(needs) && !disengaged(needs)
}

/// The bottleneck names the lines are chosen by are distinct: each starts
/// with a letter of its own.
pub proof fn lemma_bottleneck_names_distinct()
    ensures
        "phi"@ != "working_memory"@,
        "phi"@ != "attention"@,
        "phi"@ != "embodiment"@,
        "phi"@ != "knowledge"@,
        "phi"@ != "broadcast"@,
        "phi"@ != "recurrence"@,
        "phi"@ != "synchrony"@,
        "working_memory"@ != "attention"@,
        "working_memory"@ != "embodiment"@,
        "working_memory"@ != "knowledge"@,
        "working_memory"@ != "broadcast"@,
        "working_memory"@ != "recurrence"@,
        "working_memory"@ != "synchrony"@,
        "attention"@ != "embodiment"@,
        "attention"@ != "knowledge"@,
        "attention"@ != "broadcast"@,
        "attention"@ != "recurrence"@,
        "attention"@ != "synchrony"@,
        "embodiment"@ != "knowledge"@,
        "embodiment"@ != "broadcast"@,
        "embodiment"@ != "recurrence"@,
        "embodiment"@ != "synchrony"@,
        "knowledge"@ != "broadcast"@,
        "knowledge"@ != "recurrence"@,
        "knowledge"@ != "synchrony"@,
        "broadcast"@ != "recurrence"@,
        "broadcast"@ != "synchrony"@,
        "recurrence"@ != "synchrony"@,
{
    reveal_strlit("phi");
    reveal_strlit("working_memory");
    reveal_strlit("attention");
    reveal_strlit("embodiment");
    reveal_strlit("knowledge");
    reveal_strlit("broadcast");
    reveal_strlit("recurrence");
    reveal_strlit("synchrony");
    assert("phi"@[0] == 'p');
    assert("working_memory"@[0] == 'w');
    assert("attention"@[0] == 'a');
    assert("embodiment"@[0] == 'e');
    assert("knowledge"@[0] == 'k');
    assert("broadcast"@[0] == 'b');
    assert("recurrence"@[0] == 'r');
    assert("synchrony"@[0] == 's');
}

/// Kael's lines, for any name in which Kael is the first crew name found:
/// burnout first, then loneliness, then one line per bottleneck.
pub proof fn lemma_kael_lines(level_tier: u8, name: Seq<char>, needs: Option<NeedFlags>)
    requires
        contains_chars(name, "Kael"@),
    ensures
        burned_out(needs) ==> forall|b: Seq<char>| #[trigger] dialogue_line(b, level_tier, name, needs)
            == name + ": \"The junction grids... they're completely fried. I can't keep them stable alone!\""@,
        !burned_out(needs) && lonely(needs) ==> forall|b: Seq<char>| #[trigger] dialogue_line(b, level_tier, name, needs)
            == name + ": \"Does anyone even care about the life support status? I'm talking to empty rooms.\""@,
        !burned_out(needs) && !lonely(needs) ==> dialogue_line("phi"@, level_tier, name, needs) == name + ": \"If we don't fix the power loops, the consciousness coupling will collapse.\""@,
        !burned_out(needs) && !lonely(needs) ==> dialogue_line("working_memory"@, level_tier, name, needs) == name + ": \"What was the sequence for the water pump purge again?\""@,
        !burned_out(needs) && !lonely(needs) ==> dialogue_line("attention"@, level_tier, name, needs) == name + ": \"The voltage is fluctuating too fast. I can't focus on the schematics.\""@,
        forall|b: Seq<char>| !burned_out(needs) && !lonely(needs) && b != "phi"@ && b != "working_memory"@ && b != "attention"@ ==> #[trigger] dialogue_line(b, level_tier, name, needs)
            == name + ": \"Checking the junction status. We need more voltage to keep the system online.\""@,
{
    lemma_bottleneck_names_distinct();
}

/// Mira's lines, for any name in which Mira is the first crew name found:
/// burnout first, then loneliness, then one line per bottleneck.
pub proof fn lemma_mira_lines(level_tier: u8, name: Seq<char>, needs: Option<NeedFlags>)
    requires
        contains_chars(name, "Mira"@),
        !contains_chars(name, "Kael"@),
    ensures
        burned_out(needs) ==> forall|b: Seq<char>| #[trigger] dialogue_line(b, level_tier, name, needs)
            == name + ": \"So many wounded... the trauma feed is off the charts. I need a break.\""@,
        !burned_out(needs) && lonely(needs) ==> forall|b: Seq<char>| #[trigger] dialogue_line(b, level_tier, name, needs)
            == name + ": \"I'm supposed to heal people, but everyone is shutting me out.\""@,
        !burned_out(needs) && !lonely(needs) ==> dialogue_line("phi"@, level_tier, name, needs) == name + ": \"Biometric stress is peaking. Please, everyone stay calm and breathe.\""@,
        !burned_out(needs) && !lonely(needs) ==> dialogue_line("embodiment"@, level_tier, name, needs) == name + ": \"My hands are shaking... is this real feedback or phantom trauma?\""@,
        !burned_out(needs) && !lonely(needs) ==> dialogue_line("knowledge"@, level_tier, name, needs) == name + ": \"I need clean water. If the pump is sabotaged, infection rates will spike.\""@,
        forall|b: Seq<char>| !burned_out(needs) && !lonely(needs) && b != "phi"@ && b != "embodiment"@ && b != "knowledge"@ ==> #[trigger] dialogue_line(b, level_tier, name, needs)
            == name + ": \"Check your biometrics. Don't let your stress compromise the coupling.\""@,
{
    lemma_bottleneck_names_distinct();
}

/// Soren's lines, for any name in which Soren is the first crew name found:
/// burnout first, then loneliness, then one line per bottleneck.
pub proof fn lemma_soren_lines(level_tier: u8, name: Seq<char>, needs: Option<NeedFlags>)
    requires
        contains_chars(name, "Soren"@),
        !contains_chars(name, "Kael"@),
        !contains_chars(name, "Mira"@),
    ensures
        burned_out(needs) ==> forall|b: Seq<char>| #[trigger] dialogue_line(b, level_tier, name, needs)
            == name + ": \"The logs... they're being erased. Everything we built... gone.\""@,
        !burned_out(needs) && lonely(needs) ==> forall|b: Seq<char>| #[trigger] dialogue_line(b, level_tier, name, needs)
            == name + ": \"Isolated in the archive stacks. Only dead voices for company.\""@,
        !burned_out(needs) && !lonely(needs) ==> dialogue_line("phi"@, level_tier, name, needs) == name + ": \"This division of consciousness is documented in the ancient worldline files.\""@,
        !burned_out(needs) && !lonely(needs) ==> dialogue_line("knowledge"@, level_tier, name, needs) == name + ": \"The Chronicle knows our choices. Nothing is forgotten.\""@,
        !burned_out(needs) && !lonely(needs) ==> dialogue_line("broadcast"@, level_tier, name, needs) == name + ": \"I need to transmit this signal before the null ecology intercepts it.\""@,
        forall|b: Seq<char>| !burned_out(needs) && !lonely(needs) && b != "phi"@ && b != "knowledge"@ && b != "broadcast"@ ==> #[trigger] dialogue_line(b, level_tier, name, needs)
            == name + ": \"I am scanning the historical anchors for precedents in the database.\""@,
{
    lemma_bottleneck_names_distinct();
}

/// Jack's lines, for any name in which Jack is the first crew name found:
/// burnout first, then loneliness, then one line per bottleneck.
pub proof fn lemma_jack_lines(level_tier: u8, name: Seq<char>, needs: Option<NeedFlags>)
    requires
        contains_chars(name, "Jack"@),
        !contains_chars(name, "Kael"@),
        !contains_chars(name, "Mira"@),
        !contains_chars(name, "Soren"@),
    ensures
        burned_out(needs) ==> forall|b: Seq<char>| #[trigger] dialogue_line(b, level_tier, name, needs)
            == name + ": \"Drones everywhere! We're cornered! Get that door open!\""@,
        !burned_out(needs) && lonely(needs) ==> forall|b: Seq<char>| #[trigger] dialogue_line(b, level_tier, name, needs)
            == name + ": \"Where is the backup team? We're on our own out here.\""@,
        !burned_out(needs) && !lonely(needs) ==> dialogue_line("attention"@, level_tier, name, needs) == name + ": \"Keep your eyes open. The null ecology is scanning this room.\""@,
        !burned_out(needs) && !lonely(needs) ==> dialogue_line("working_memory"@, level_tier, name, needs) == name + ": \"I'm losing track of the patrol routes. Need to double back.\""@,
        forall|b: Seq<char>| !burned_out(needs) && !lonely(needs) && b != "attention"@ && b != "working_memory"@ ==> #[trigger] dialogue_line(b, level_tier, name, needs)
            == name + ": \"Secure the perimeter. I'll cover the pump area while you repair.\""@,
{
    lemma_bottleneck_names_distinct();
}

/// PR-4's lines, for any name in which PR-4 is the first crew name found:
/// burnout first (no line for loneliness), then one line per bottleneck.
pub proof fn lemma_pr4_lines(level_tier: u8, name: Seq<char>, needs: Option<NeedFlags>)
    requires
        contains_chars(name, "PR-4"@),
        !contains_chars(name, "Kael"@),
        !contains_chars(name, "Mira"@),
        !contains_chars(name, "Soren"@),
        !contains_chars(name, "Jack"@),
    ensures
        burned_out(needs) ==> forall|b: Seq<char>| #[trigger] dialogue_line(b, level_tier, name, needs)
            == name + ": \"WARNING: Actuator thermal overload. Self-preservation protocol active.\""@,
        !burned_out(needs) ==> dialogue_line("phi"@, level_tier, name, needs) == name + ": \"Error: Phi levels deviating from target parameters. Re-calibrating.\""@,
        !burned_out(needs) ==> dialogue_line("embodiment"@, level_tier, name, needs) == name + ": \"Chassis integrity at 98%. Ready for hardware maintenance task.\""@,
        !burned_out(needs) ==> dialogue_line("working_memory"@, level_tier, name, needs) == name + ": \"Buffer overflow: memory allocation failed. Repeating task list.\""@,
        forall|b: Seq<char>| !burned_out(needs) && b != "phi"@ && b != "embodiment"@ && b != "working_memory"@ ==> #[trigger] dialogue_line(b, level_tier, name, needs)
            == name + ": \"Beep. Ready to assist with power grid configuration and maintenance.\""@,
{
    lemma_bottleneck_names_distinct();
}

/// Nadia's lines, for any name in which Nadia is the first crew name found:
/// burnout first, then loneliness, then one line per bottleneck.
pub proof fn lemma_nadia_lines(level_tier: u8, name: Seq<char>, needs: Option<NeedFlags>)
    requires
        contains_chars(name, "Nadia"@),
        !contains_chars(name, "Kael"@),
        !contains_chars(name, "Mira"@),
        !contains_chars(name, "Soren"@),
        !contains_chars(name, "Jack"@),
        !contains_chars(name, "PR-4"@),
    ensures
        burned_out(needs) ==> forall|b: Seq<char>| #[trigger] dialogue_line(b, level_tier, name, needs)
            == name + ": \"The trade-offs are too steep. We are sacrificing too much for this colony!\""@,
        !burned_out(needs) && lonely(needs) ==> forall|b: Seq<char>| #[trigger] dialogue_line(b, level_tier, name, needs)
            == name + ": \"Nobody trusts my negotiations anymore. I'm talking to walls.\""@,
        !burned_out(needs) && !lonely(needs) ==> dialogue_line("phi"@, level_tier, name, needs) == name + ": \"We must balance resources. If we overdrive the factory, the entropy will kill us.\""@,
        !burned_out(needs) && !lonely(needs) ==> dialogue_line("knowledge"@, level_tier, name, needs) == name + ": \"The factions are watching how we handle the water crisis. We need a vote.\""@,
        forall|b: Seq<char>| !burned_out(needs) && !lonely(needs) && b != "phi"@ && b != "knowledge"@ ==> #[trigger] dialogue_line(b, level_tier, name, needs)
            == name + ": \"We can secure a deal if we keep the power grid stable. Let's act logically.\""@,
{
    lemma_bottleneck_names_distinct();
}

/// Leo's lines, for any name in which Leo is the first crew name found:
/// burnout first, then loneliness, then one line per bottleneck.
pub proof fn lemma_leo_lines(level_tier: u8, name: Seq<char>, needs: Option<NeedFlags>)
    requires
        contains_chars(name, "Leo"@),
        !contains_chars(name, "Kael"@),
        !contains_chars(name, "Mira"@),
        !contains_chars(name, "Soren"@),
        !contains_chars(name, "Jack"@),
        !contains_chars(name, "PR-4"@),
        !contains_chars(name, "Nadia"@),
    ensures
        burned_out(needs) ==> forall|b: Seq<char>| #[trigger] dialogue_line(b, level_tier, name, needs)
            == name + ": \"I don't know what to do! It's all falling apart and I'm scared!\""@,
        !burned_out(needs) && lonely(needs) ==> forall|b: Seq<char>| #[trigger] dialogue_line(b, level_tier, name, needs)
            == name + ": \"Why is everyone ignoring me? I just want to help.\""@,
        !burned_out(needs) && !lonely(needs) ==> dialogue_line("phi"@, level_tier, name, needs) == name + ": \"Is my consciousness level high enough? I don't want to get caught by the Leviathan.\""@,
        !burned_out(needs) && !lonely(needs) ==> dialogue_line("knowledge"@, level_tier, name, needs) == name + ": \"How do I use the repair tool? I'm trying my best...\""@,
        !burned_out(needs) && !lonely(needs) ==> dialogue_line("working_memory"@, level_tier, name, needs) == name + ": \"Wait, what was Kael's instruction? I forgot...\""@,
        forall|b: Seq<char>| !burned_out(needs) && !lonely(needs) && b != "phi"@ && b != "knowledge"@ && b != "working_memory"@ ==> #[trigger] dialogue_line(b, level_tier, name, needs)
            == name + ": \"I'll watch the monitors. Tell me what needs doing, please.\""@,
{
    lemma_bottleneck_names_distinct();
}

/// Anyone whose name holds no crew name: burnout, loneliness and
/// disengagement lines first, in that order, then one line per level tier and
/// bottleneck.
pub proof fn lemma_generic_lines(level_tier: u8, name: Seq<char>, needs: Option<NeedFlags>)
    requires
        !contains_chars(name, "Kael"@),
        !contains_chars(name, "Mira"@),
        !contains_chars(name, "Soren"@),
        !contains_chars(name, "Jack"@),
        !contains_chars(name, "PR-4"@),
        !contains_chars(name, "Nadia"@),
        !contains_chars(name, "Leo"@),
    ensures
        burned_out(needs) ==> forall|b: Seq<char>| #[trigger] dialogue_line(b, level_tier, name, needs)
            == name + ": \"I can't keep this up... everything hurts.\""@,
        !burned_out(needs) && lonely(needs) ==> forall|b: Seq<char>| #[trigger] dialogue_line(b, level_tier, name, needs)
            == name + ": \"Does anyone even know I'm here?\""@,
        !burned_out(needs) && !lonely(needs) && disengaged(needs) ==> forall|b: Seq<char>| #[trigger] dialogue_line(b, level_tier, name, needs)
            == name + ": \"...\""@,
        settled(needs) && level_tier >= 2 ==> dialogue_line("phi"@, level_tier, name, needs) == name + ": \"I feel... integrated. Whole.\""@,
        settled(needs) && level_tier >= 2 ==> dialogue_line("broadcast"@, level_tier, name, needs) == name + ": \"I can almost share what I know.\""@,
        settled(needs) && level_tier >= 2 ==> dialogue_line("knowledge"@, level_tier, name, needs) == name + ": \"I understand more now.\""@,
        settled(needs) && level_tier >= 2 ==> dialogue_line("embodiment"@, level_tier, name, needs) == name + ": \"My body feels real here.\""@,
        forall|b: Seq<char>| settled(needs) && level_tier >= 2 && b != "phi"@ && b != "broadcast"@ && b != "knowledge"@ && b != "embodiment"@ ==> #[trigger] dialogue_line(b, level_tier, name, needs)
            == name + ": \"Something is shifting inside me.\""@,
        settled(needs) && level_tier == 1 ==> dialogue_line("phi"@, level_tier, name, needs) == name + ": \"Parts of me feel... disconnected.\""@,
        settled(needs) && level_tier == 1 ==> dialogue_line("broadcast"@, level_tier, name, needs) == name + ": \"I know something but can't express it.\""@,
        settled(needs) && level_tier == 1 ==> dialogue_line("working_memory"@, level_tier, name, needs) == name + ": \"I keep forgetting what I was doing.\""@,
        settled(needs) && level_tier == 1 ==> dialogue_line("attention"@, level_tier, name, needs) == name + ": \"I can't focus. Too much happening.\""@,
        settled(needs) && level_tier == 1 ==> dialogue_line("knowledge"@, level_tier, name, needs) == name + ": \"What IS this place? I need answers.\""@,
        settled(needs) && level_tier == 1 ==> dialogue_line("embodiment"@, level_tier, name, needs) == name + ": \"Am I really here? This doesn't feel real.\""@,
        settled(needs) && level_tier == 1 ==> dialogue_line("recurrence"@, level_tier, name, needs) == name + ": \"I can't think deeply enough about this.\""@,
        settled(needs) && level_tier == 1 ==> dialogue_line("synchrony"@, level_tier, name, needs) == name + ": \"We need to be together. Closer.\""@,
        forall|b: Seq<char>| settled(needs) && level_tier == 1 && b != "phi"@ && b != "broadcast"@ && b != "working_memory"@ && b != "attention"@ && b != "knowledge"@ && b != "embodiment"@ && b != "recurrence"@ && b != "synchrony"@ ==> #[trigger] dialogue_line(b, level_tier, name, needs)
            == name + ": \"...\""@,
        settled(needs) && level_tier == 0 ==> dialogue_line("phi"@, level_tier, name, needs) == name + ": \"I'm falling apart...\""@,
        settled(needs) && level_tier == 0 ==> dialogue_line("broadcast"@, level_tier, name, needs) == name + ": \"HELP— I can't— nobody hears—\""@,
        settled(needs) && level_tier == 0 ==> dialogue_line("working_memory"@, level_tier, name, needs) == name + ": \"Where... who...\""@,
        settled(needs) && level_tier == 0 ==> dialogue_line("attention"@, level_tier, name, needs) == name + ": \"Everything is noise. NOISE.\""@,
        settled(needs) && level_tier == 0 ==> dialogue_line("knowledge"@, level_tier, name, needs) == name + ": \"I don't understand anything anymore.\""@,
        settled(needs) && level_tier == 0 ==> dialogue_line("embodiment"@, level_tier, name, needs) == name + ": \"I can't feel my hands.\""@,
        forall|b: Seq<char>| settled(needs) && level_tier == 0 && b != "phi"@ && b != "broadcast"@ && b != "working_memory"@ && b != "attention"@ && b != "knowledge"@ && b != "embodiment"@ ==> #[trigger] dialogue_line(b, level_tier, name, needs)
            == name + ": \"...please...\""@,
{
    lemma_bottleneck_names_distinct();
}

} // verus!

use crate::effect::JamEffect;
use crate::phrases::{lemma_slots_nonempty, slot_entries, slot_phrases, Phrase, SLOT_COUNT};
use vstd::prelude::*;

verus! {

/// The sentence that closes every story.
pub const CLOSING_LINE: &'static str = "As you can tell, I am in deperate need of assistance, do you have any jam that could help me ensure this doesn't happen again?";

/// A told story: its text, and the jam effects of the fragments it was made of.
#[derive(Clone, Debug, PartialEq, Eq)]
pub struct Story {
    pub text: String,
    pub effects: Vec<Option<JamEffect>>,
}

/// The texts of `picks` joined in order.
pub open spec fn picks_text(picks: Seq<(Option<JamEffect>, Seq<char>)>) -> Seq<char>
    decreases picks.len(),
{
    if picks.len() == 0 {
        seq![]
    } else {
        picks_text(picks.drop_last()) + picks.last().1
    }
}

/// The story told by `picks`: their texts in order, then the closing sentence.
pub open spec fn story_text(picks: Seq<(Option<JamEffect>, Seq<char>)>) -> Seq<char> {
    picks_text(picks) + CLOSING_LINE@
}

/// The jam effects of `picks`, in order.
pub open spec fn story_effects(picks: Seq<(Option<JamEffect>, Seq<char>)>) -> Seq<Option<JamEffect>> {
    picks.map_values(|p: (Option<JamEffect>, Seq<char>)| p.0)
}

/// `picks` holds one fragment of each slot of the table, in slot order.
pub open spec fn picks_from_table(picks: Seq<(Option<JamEffect>, Seq<char>)>) -> bool {
    &&& picks.len() == SLOT_COUNT
    &&& forall|i: int| 0 <= i < SLOT_COUNT ==> #[trigger] slot_entries(i).contains(picks[i])
}

/// Relies on rand's `SliceRandom::choose` with the thread-local generator: one
/// entry of the slice, drawn uniformly, or `None` when the slice is empty.
#[verifier::external_body]
fn choose_phrase(entries: &Vec<Phrase>) -> (r: Option<Phrase>)
    ensures
        r.is_none() == (entries@.len() == 0),
        r matches Some(p) ==> entries@.contains(p),
{
    rand::seq::SliceRandom::choose(entries.as_slice(), &mut rand::thread_rng()).copied()
}

/// Tells the story made of `picks`, in order, followed by the closing sentence.
pub fn compose_story(picks: &Vec<Phrase>) -> (r: Story)
    ensures
        r.text@ == story_text(picks@.map_values(|p: Phrase| p@)),
        r.effects@ == story_effects(picks@.map_values(|p: Phrase| p@)),
{
    let ghost views = picks@.map_values(|p: Phrase| p@);
    let mut text = String::new();
    let mut effects: Vec<Option<JamEffect>> = Vec::new();
    for i in 0..picks.len()
        invariant
            views == picks@.map_values(|p: Phrase| p@),
            text@ == picks_text(views.take(i as int)),
            effects@ == story_effects(views.take(i as int)),
    {
        let p = picks[i];
        text.append(p.text);
        effects.push(p.effect);
        proof {
            let next = views.take(i + 1);
            assert(next.drop_last() =~= views.take(i as int));
            assert(effects@ =~= story_effects(next));
        }
    }
    assert(views.take(picks.len() as int) =~= views);
    text.append(CLOSING_LINE);
    Story { text, effects }
}

/// Tells a new story: one fragment drawn at random from each slot of the table.
pub fn generate_story() -> (r: Story)
    ensures
        exists|picks: Seq<(Option<JamEffect>, Seq<char>)>|
            {
                &&& picks_from_table(picks)
                &&& r.text@ == story_text(picks)
                &&& r.effects@ == story_effects(picks)
            },
{
    let mut picks: Vec<Phrase> = Vec::new();
    for slot in 0..SLOT_COUNT
        invariant
            picks@.len() == slot,
            forall|i: int| 0 <= i < slot ==> #[trigger] slot_entries(i).contains(picks@[i]@),
    {
        let entries = slot_phrases(slot);
        proof {
            lemma_slots_nonempty(slot as int);
        }
        if let Some(p) = choose_phrase(&entries) {
            proof {
                let j = choose|j: int| 0 <= j < entries@.len() && entries@[j] == p;
                assert(entries@.map_values(|q: Phrase| q@)[j] == p@);
            }
            picks.push(p);
        }
    }
    let r = compose_story(&picks);
    let ghost views = picks@.map_values(|p: Phrase| p@);
    assert(picks_from_table(views));
    r
}

} // verus!

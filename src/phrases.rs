use crate::effect::JamEffect;
use vstd::prelude::*;

verus! {

/// How many slots a story has: one fragment is picked from each, in order.
pub const SLOT_COUNT: usize = 13;

/// A sentence fragment, with the jam effect it points at, if any.
#[derive(Clone, Copy, Debug, PartialEq, Eq)]
pub struct Phrase {
    pub effect: Option<JamEffect>,
    pub text: &'static str,
}

impl View for Phrase {
    type V = (Option<JamEffect>, Seq<char>);

    open spec fn view(&self) -> (Option<JamEffect>, Seq<char>) {
        (self.effect, self.text@)
    }
}

/// The fragments of one slot, in table order: who, what, to whom, and how it ended.
pub open spec fn slot_entries(slot: int) -> Seq<(Option<JamEffect>, Seq<char>)> {
    if slot == 0 {
        seq![
            (Some(JamEffect::Hunger), "I was scavenging for food when "@),
            (None, "The other day, "@),
            (None, "In a firefight, "@),
            (None, "Before the war, "@),
        ]
    } else if slot == 1 {
        seq![
            (Some(JamEffect::SuperHumanStrength), "a raider far stronger than me "@),
            (None, "a rival gang "@),
            (Some(JamEffect::Antivenom), "a mutated snake with potent venom "@),
            (None, "an Old War soldier "@),
            (None, "an enemy fuel convoy "@),
            (Some(JamEffect::CureDisease), "a feral dog, riddled with diseases, "@),
        ]
    } else if slot == 2 {
        seq![
            (None, "angrily "@),
            (None, "furiously "@),
            (None, "violently "@),
            (None, "suddenly "@),
        ]
    } else if slot == 3 {
        seq![
            (Some(JamEffect::Coagulant), "stabbed "@),
            (None, "robbed "@),
            (None, "destroyed "@),
            (None, "hunted "@),
            (None, "shot at "@),
        ]
    } else if slot == 4 {
        seq![
            (None, "my raiding party "@),
            (None, "me "@),
            (None, "my war-dog "@),
            (Some(JamEffect::Speed), "my armoured truck, leaving me slow, "@),
            (Some(JamEffect::Hunger), "my food supplies "@),
        ]
    } else if slot == 5 {
        seq![
            (None, "whilst I was "@),
            (None, "when I was "@),
            (None, "after I was caught "@),
            (None, "for "@),
        ]
    } else if slot == 6 {
        seq![
            (Some(JamEffect::Invisibility), "trying to steal "@),
            (None, "destroying "@),
            (Some(JamEffect::Speed), "escaping with "@),
            (None, "running over "@),
            (None, "gambling away "@),
            (Some(JamEffect::Poison), "poisoning "@),
        ]
    } else if slot == 7 {
        seq![
            (None, "their water supply, "@),
            (None, "their supplies, "@),
            (None, "their credits, "@),
            (None, "their jam, "@),
            (Some(JamEffect::Flammable), "their fuel, "@),
            (None, "their Old World relics, "@),
            (Some(JamEffect::Flight), "their pre-war iron bird "@),
        ]
    } else if slot == 8 {
        seq![
            (None, "so we "@),
            (None, "so I "@),
            (None, "and then I "@),
            (None, "and then we "@),
        ]
    } else if slot == 9 {
        seq![
            (None, "engaged them in hand to hand combat, "@),
            (None, "began shooting at them, "@),
            (None, "turned and ran away, "@),
            (None, "offered them a truce, "@),
            (None, "told them to surrender, "@),
        ]
    } else if slot == 10 {
        seq![
            (None, "but then "@),
            (None, "unfortunately this was interrupted when "@),
            (None, "before this could happen "@),
            (None, "suddenly, out of nowhere "@),
        ]
    } else if slot == 11 {
        seq![
            (None, "a huge explosion went off, which caused "@),
            (None, "a passionate glance was exchanged, which caused "@),
            (Some(JamEffect::Antivenom), "a poisoned trap clamped on my leg , causing "@),
            (None, "a severe gust of rad-wind tore through the valley, causing "@),
            (Some(JamEffect::SuperHumanStrength), "my body became suddenly weak, causing "@),
        ]
    } else if slot == 12 {
        seq![
            (Some(JamEffect::Coagulant), "my leg to fall off. "@),
            (Some(JamEffect::CureDisease), "my raid members to become violently sick. "@),
            (Some(JamEffect::Flammable), "my matches to get wet. "@),
            (Some(JamEffect::NightVision), "everything to go dark. "@),
        ]
    } else {
        seq![]
    }
}

/// How many fragments the slot holds.
pub open spec fn slot_len(slot: int) -> nat {
    slot_entries(slot).len()
}

/// Every slot of the table has at least one fragment to pick from.
pub proof fn lemma_slots_nonempty(slot: int)
    requires
        0 <= slot < SLOT_COUNT,
    ensures
        slot_len(slot) > 0,
{
}

/// The fragments of slot `slot`.
pub fn slot_phrases(slot: usize) -> (r: Vec<Phrase>)
    requires
        slot < SLOT_COUNT,
    ensures
        r@.map_values(|p: Phrase| p@) == slot_entries(slot as int),
{
    let r = match slot {
        0 => vec![
            Phrase { effect: Some(JamEffect::Hunger), text: "I was scavenging for food when " },
            Phrase { effect: None, text: "The other day, " },
            Phrase { effect: None, text: "In a firefight, " },
            Phrase { effect: None, text: "Before the war, " },
        ],
        1 => vec![
            Phrase { effect: Some(JamEffect::SuperHumanStrength), text: "a raider far stronger than me " },
            Phrase { effect: None, text: "a rival gang " },
            Phrase { effect: Some(JamEffect::Antivenom), text: "a mutated snake with potent venom " },
            Phrase { effect: None, text: "an Old War soldier " },
            Phrase { effect: None, text: "an enemy fuel convoy " },
            Phrase { effect: Some(JamEffect::CureDisease), text: "a feral dog, riddled with diseases, " },
        ],
        2 => vec![
            Phrase { effect: None, text: "angrily " },
            Phrase { effect: None, text: "furiously " },
            Phrase { effect: None, text: "violently " },
            Phrase { effect: None, text: "suddenly " },
        ],
        3 => vec![
            Phrase { effect: Some(JamEffect::Coagulant), text: "stabbed " },
            Phrase { effect: None, text: "robbed " },
            Phrase { effect: None, text: "destroyed " },
            Phrase { effect: None, text: "hunted " },
            Phrase { effect: None, text: "shot at " },
        ],
        4 => vec![
            Phrase { effect: None, text: "my raiding party " },
            Phrase { effect: None, text: "me " },
            Phrase { effect: None, text: "my war-dog " },
            Phrase { effect: Some(JamEffect::Speed), text: "my armoured truck, leaving me slow, " },
            Phrase { effect: Some(JamEffect::Hunger), text: "my food supplies " },
        ],
        5 => vec![
            Phrase { effect: None, text: "whilst I was " },
            Phrase { effect: None, text: "when I was " },
            Phrase { effect: None, text: "after I was caught " },
            Phrase { effect: None, text: "for " },
        ],
        6 => vec![
            Phrase { effect: Some(JamEffect::Invisibility), text: "trying to steal " },
            Phrase { effect: None, text: "destroying " },
            Phrase { effect: Some(JamEffect::Speed), text: "escaping with " },
            Phrase { effect: None, text: "running over " },
            Phrase { effect: None, text: "gambling away " },
            Phrase { effect: Some(JamEffect::Poison), text: "poisoning " },
        ],
        7 => vec![
            Phrase { effect: None, text: "their water supply, " },
            Phrase { effect: None, text: "their supplies, " },
            Phrase { effect: None, text: "their credits, " },
            Phrase { effect: None, text: "their jam, " },
            Phrase { effect: Some(JamEffect::Flammable), text: "their fuel, " },
            Phrase { effect: None, text: "their Old World relics, " },
            Phrase { effect: Some(JamEffect::Flight), text: "their pre-war iron bird " },
        ],
        8 => vec![
            Phrase { effect: None, text: "so we " },
            Phrase { effect: None, text: "so I " },
            Phrase { effect: None, text: "and then I " },
            Phrase { effect: None, text: "and then we " },
        ],
        9 => vec![
            Phrase { effect: None, text: "engaged them in hand to hand combat, " },
            Phrase { effect: None, text: "began shooting at them, " },
            Phrase { effect: None, text: "turned and ran away, " },
            Phrase { effect: None, text: "offered them a truce, " },
            Phrase { effect: None, text: "told them to surrender, " },
        ],
        10 => vec![
            Phrase { effect: None, text: "but then " },
            Phrase { effect: None, text: "unfortunately this was interrupted when " },
            Phrase { effect: None, text: "before this could happen " },
            Phrase { effect: None, text: "suddenly, out of nowhere " },
        ],
        11 => vec![
            Phrase { effect: None, text: "a huge explosion went off, which caused " },
            Phrase { effect: None, text: "a passionate glance was exchanged, which caused " },
            Phrase { effect: Some(JamEffect::Antivenom), text: "a poisoned trap clamped on my leg , causing " },
            Phrase { effect: None, text: "a severe gust of rad-wind tore through the valley, causing " },
            Phrase { effect: Some(JamEffect::SuperHumanStrength), text: "my body became suddenly weak, causing " },
        ],
        _ => vec![
            Phrase { effect: Some(JamEffect::Coagulant), text: "my leg to fall off. " },
            Phrase { effect: Some(JamEffect::CureDisease), text: "my raid members to become violently sick. " },
            Phrase { effect: Some(JamEffect::Flammable), text: "my matches to get wet. " },
            Phrase { effect: Some(JamEffect::NightVision), text: "everything to go dark. " },
        ],
    };
    assert(r@.map_values(|p: Phrase| p@) =~= slot_entries(slot as int));
    r
}

} // verus!

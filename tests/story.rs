use shop_scene::effect::JamEffect;
use shop_scene::phrases::{slot_phrases, Phrase, SLOT_COUNT};
use shop_scene::story::{compose_story, generate_story, CLOSING_LINE};

const CLOSING: &str = "As you can tell, I am in deperate need of assistance, do you have any jam that could help me ensure this doesn't happen again?";

fn first_of_each_slot() -> Vec<Phrase> {
    (0..SLOT_COUNT).map(|s| slot_phrases(s)[0]).collect()
}

fn last_of_each_slot() -> Vec<Phrase> {
    (0..SLOT_COUNT).map(|s| *slot_phrases(s).last().unwrap()).collect()
}

#[test]
fn table_has_thirteen_slots_of_the_expected_sizes() {
    assert_eq!(SLOT_COUNT, 13);
    let sizes: Vec<usize> = (0..SLOT_COUNT).map(|s| slot_phrases(s).len()).collect();
    assert_eq!(sizes, vec![4, 6, 4, 5, 5, 4, 6, 7, 4, 5, 4, 5, 4]);
}

#[test]
fn table_entries_keep_their_tags() {
    assert_eq!(
        slot_phrases(0)[0],
        Phrase { effect: Some(JamEffect::Hunger), text: "I was scavenging for food when " }
    );
    assert_eq!(slot_phrases(0)[1], Phrase { effect: None, text: "The other day, " });
    assert_eq!(
        slot_phrases(4)[3],
        Phrase { effect: Some(JamEffect::Speed), text: "my armoured truck, leaving me slow, " }
    );
    assert_eq!(
        slot_phrases(7)[6],
        Phrase { effect: Some(JamEffect::Flight), text: "their pre-war iron bird " }
    );
    assert_eq!(
        slot_phrases(12)[3],
        Phrase { effect: Some(JamEffect::NightVision), text: "everything to go dark. " }
    );
}

#[test]
fn closing_line_is_the_fixed_sentence() {
    assert_eq!(CLOSING_LINE, CLOSING);
}

#[test]
fn story_of_first_fragments() {
    let story = compose_story(&first_of_each_slot());
    let expected = format!(
        "{}{}",
        "I was scavenging for food when a raider far stronger than me angrily stabbed my raiding party whilst I was trying to steal their water supply, so we engaged them in hand to hand combat, but then a huge explosion went off, which caused my leg to fall off. ",
        CLOSING
    );
    assert_eq!(story.text, expected);
    assert_eq!(
        story.effects,
        vec![
            Some(JamEffect::Hunger),
            Some(JamEffect::SuperHumanStrength),
            None,
            Some(JamEffect::Coagulant),
            None,
            None,
            Some(JamEffect::Invisibility),
            None,
            None,
            None,
            None,
            None,
            Some(JamEffect::Coagulant),
        ]
    );
}

#[test]
fn story_of_last_fragments() {
    let story = compose_story(&last_of_each_slot());
    let expected = format!(
        "{}{}",
        "Before the war, a feral dog, riddled with diseases, suddenly shot at my food supplies for poisoning their pre-war iron bird and then we told them to surrender, suddenly, out of nowhere my body became suddenly weak, causing everything to go dark. ",
        CLOSING
    );
    assert_eq!(story.text, expected);
    assert_eq!(
        story.effects,
        vec![
            None,
            Some(JamEffect::CureDisease),
            None,
            None,
            Some(JamEffect::Hunger),
            None,
            Some(JamEffect::Poison),
            Some(JamEffect::Flight),
            None,
            None,
            None,
            Some(JamEffect::SuperHumanStrength),
            Some(JamEffect::NightVision),
        ]
    );
}

#[test]
fn story_of_no_fragments_is_the_closing_line() {
    let story = compose_story(&Vec::new());
    assert_eq!(story.text, CLOSING);
    assert!(story.effects.is_empty());
}

#[test]
fn story_keeps_the_order_of_its_fragments() {
    let picks = vec![
        Phrase { effect: None, text: "b " },
        Phrase { effect: Some(JamEffect::Poison), text: "a " },
    ];
    let story = compose_story(&picks);
    assert_eq!(story.text, format!("b a {}", CLOSING));
    assert_eq!(story.effects, vec![None, Some(JamEffect::Poison)]);
}

/// Matches `rest` against one fragment of each slot from `slot` on, then the closing line.
fn match_slots(rest: &str, slot: usize, acc: &mut Vec<Phrase>) -> bool {
    if slot == SLOT_COUNT {
        return rest == CLOSING;
    }
    for p in slot_phrases(slot) {
        if let Some(tail) = rest.strip_prefix(p.text) {
            acc.push(p);
            if match_slots(tail, slot + 1, acc) {
                return true;
            }
            acc.pop();
        }
    }
    false
}

/// Splits `text` into one fragment of each slot, in order, and the closing line.
fn parse_story(text: &str) -> Option<Vec<Phrase>> {
    let mut acc = Vec::new();
    if match_slots(text, 0, &mut acc) {
        Some(acc)
    } else {
        None
    }
}

#[test]
fn generated_stories_are_made_from_the_table() {
    for _ in 0..200 {
        let story = generate_story();
        let picks = parse_story(&story.text).expect("story follows the table");
        let effects: Vec<Option<JamEffect>> = picks.iter().map(|p| p.effect).collect();
        assert_eq!(story.effects, effects);
    }
}

#[test]
fn generated_stories_vary() {
    let first = generate_story();
    let differs = (0..200).any(|_| generate_story().text != first.text);
    assert!(differs);
}

#[test]
fn every_fragment_of_the_first_slot_is_drawn() {
    for p in slot_phrases(0) {
        let seen = (0..2000).any(|_| generate_story().text.starts_with(p.text));
        assert!(seen, "never drew {:?}", p.text);
    }
}

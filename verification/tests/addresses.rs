use gloss_word::fetch::lookup_url;
use gloss_word::orchestrator::Lookup;
use gloss_word::mode::Mode;

#[test]
fn definition_address_writes_a_plus_for_each_space() {
    assert_eq!(
        lookup_url(Mode::Definition, "atavism"),
        "https://www.thefreedictionary.com/atavism"
    );
    assert_eq!(
        lookup_url(Mode::Definition, "ice  cream cone"),
        "https://www.thefreedictionary.com/ice++cream+cone"
    );
}

#[test]
fn etymology_address_writes_percent_twenty_for_each_space() {
    assert_eq!(
        lookup_url(Mode::Etymology, "forest"),
        "https://www.etymonline.com/word/forest"
    );
    assert_eq!(
        lookup_url(Mode::Etymology, "ice cream "),
        "https://www.etymonline.com/word/ice%20cream%20"
    );
}

#[test]
fn address_of_the_empty_word_is_the_prefix() {
    assert_eq!(lookup_url(Mode::Definition, ""), "https://www.thefreedictionary.com/");
    assert_eq!(lookup_url(Mode::Etymology, ""), "https://www.etymonline.com/word/");
}

fn looked_up(input: &str) -> String {
    let (lookup, _first) = Lookup::new(Mode::Definition, input, false, true);
    lookup.word().to_string()
}

#[test]
fn word_is_put_in_lower_case() {
    assert_eq!(looked_up("ForEst"), "forest");
    assert_eq!(looked_up("Ice Cream"), "ice cream");
    assert_eq!(looked_up("ÉCOLE"), "école");
    assert_eq!(looked_up("already"), "already");
}

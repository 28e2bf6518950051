use gloss_word::mode::Mode;
use gloss_word::normalize::Conversion;
use gloss_word::orchestrator::{Action, Event, Lookup};

// Runs one lookup on a stored page with a converter that answers from stored
// outputs, and returns the text printed and the input of the second conversion.
fn full_sequence(mode: Mode, word: &str, page: &str, intermediate: &str, plain: &str) -> (String, String) {
    let (mut lookup, mut action) = Lookup::new(mode, word, false, false);
    let mut cleaned = String::new();
    loop {
        let event = match action {
            Action::Fetch { .. } => Event::Fetched { body: page.to_string() },
            Action::Convert { conversion: Conversion::MarkupToIntermediate, .. } => {
                Event::Converted { output: intermediate.to_string() }
            }
            Action::Convert { conversion: Conversion::IntermediateToPlain, input } => {
                cleaned = input;
                Event::Converted { output: plain.to_string() }
            }
            Action::Emit { text } => return (text, cleaned),
            other => panic!("unexpected action {:?}", other),
        };
        action = lookup.step(event);
    }
}

#[test]
fn def_atavism() {
    let page = "<div id=\"Definition\"><section data-src=\"hm\"><h2>at·a·vism</h2><div class=\"pseg\"><i>n.</i><div class=\"ds-list\"><b>1. </b>The reappearance of a characteristic in an organism after several generations of absence.</div><div class=\"ds-list\"><b>2. </b>An individual or a part that exhibits atavism. Also called throwback.</div><div class=\"ds-list\"><b>3. </b>The return of a trait or recurrence of previous behavior after a period of absence.</div></div></section></div><div id=\"Thesaurus\"></div>";
    let intermediate = "## at·a·vism\n\n*n.*\n\n**1.** The reappearance of a characteristic in an organism after several generations of absence.\n\n**2.** An individual or a part that exhibits atavism. Also called throwback.\n\n**3.** The return of a trait or recurrence of previous behavior after a period of absence.\n";
    let standard = "at·a·vism\n\nn.\n\n1.  The reappearance of a characteristic in an organism after several\n    generations of absence.\n\n2.  An individual or a part that exhibits atavism. Also called\n    throwback.\n\n3.  The return of a trait or recurrence of previous behavior after a\n    period of absence.\n";

    let (output, cleaned) = full_sequence(Mode::Definition, "atavism", page, intermediate, standard);

    assert_eq!(cleaned, "## at·a·vism\n\n*n.*\n\n1. The reappearance of a characteristic in an organism after several generations of absence.\n\n2. An individual or a part that exhibits atavism. Also called throwback.\n\n3. The return of a trait or recurrence of previous behavior after a period of absence.\n");
    assert_eq!(output, standard);
}

#[test]
fn def_isthmus() {
    let page = "<div id=\"Definition\"><section data-src=\"hm\"><h2>isth·mus</h2><div class=\"pseg\"><i>n.</i> <i>pl.</i> <b>isth·mus·es</b> or <b>isth·mi</b> (-mī′)<div class=\"ds-list\"><b>1. </b>A narrow strip of land connecting two larger masses of land.</div><div class=\"ds-list\"><b>2. </b><i>Anatomy</i><div class=\"sds-list\"><b>a. </b>A narrow strip of tissue joining two larger organs or parts of an organ.</div><div class=\"sds-list\"><b>b. </b>A narrow passage connecting two larger cavities.</div></div></div></section></div><div id=\"Thesaurus\"></div>";
    let intermediate = "## isth·mus\n\n*n.* *pl.* **isth·mus·es** or **isth·mi** (-mī′)\n\n**1.** A narrow strip of land connecting two larger masses of land.\n\n**2.** *Anatomy*\n\n**a.** A narrow strip of tissue joining two larger organs or parts of an organ.\n\n**b.** A narrow passage connecting two larger cavities.\n";
    let standard = "isth·mus\n\nn. pl. isth·mus·es or isth·mi (-mī′)\n\n1.  A narrow strip of land connecting two larger masses of land.\n\n2.  Anatomy\n\n    a.  A narrow strip of tissue joining two larger organs or parts of\n        an organ.\n\n    b.  A narrow passage connecting two larger cavities.\n";

    let (output, cleaned) = full_sequence(Mode::Definition, "isthmus", page, intermediate, standard);

    assert_eq!(cleaned, "## isth·mus\n\n*n.* *pl.* **isth·mus·es** or **isth·mi** (-mī′)\n\n1. A narrow strip of land connecting two larger masses of land.\n\n2. *Anatomy*\n\n    a. A narrow strip of tissue joining two larger organs or parts of an organ.\n\n    b. A narrow passage connecting two larger cavities.\n");
    assert_eq!(output, standard);
}

#[test]
fn etym_cummerbund() {
    let page = "<h2 class=\"scroll-m-16\"><span>cummerbund(n.)</span></h2><section class=\"-mt-4\"><p>\"large, loose sash worn as a belt,\" 1610s, from Hindi kamarband \"loin band,\" from Persian kamar \"waist\" + band \"something that ties,\" from Avestan banda- \"bond, fetter,\" from PIE root *bhendh- \"to bind.\"</p></section>";
    let intermediate = "cummerbund(n.)\n\n\\\\\"large, loose sash worn as a belt,\\\\\" 1610s, from Hindi kamarband \\\\\"loin band,\\\\\" from Persian kamar \\\\\"waist\\\\\" + band \\\\\"something that ties,\\\\\" from Avestan banda- \\\\\"bond, fetter,\\\\\" from PIE root \\*bhendh- \\\\\"to bind.\\\\\"\n";
    let plain = "cummerbund(n.)\n\n“large, loose sash worn as a belt,” 1610s, from Hindi kamarband “loin\nband,” from Persian kamar “waist” + band “something that ties,” from\nAvestan banda- “bond, fetter,” from PIE root *bhendh- “to bind.”\n";
    let standard = "cummerbund (n.)\n\n“large, loose sash worn as a belt,” 1610s, from Hindi kamarband “loin\nband,” from Persian kamar “waist” + band “something that ties,” from\nAvestan banda- “bond, fetter,” from PIE root *bhendh- “to bind.”\n";

    let (output, cleaned) = full_sequence(Mode::Etymology, "cummerbund", page, intermediate, plain);

    assert_eq!(cleaned, "cummerbund(n.)\n\n\"large, loose sash worn as a belt,\" 1610s, from Hindi kamarband \"loin band,\" from Persian kamar \"waist\" + band \"something that ties,\" from Avestan banda- \"bond, fetter,\" from PIE root \\*bhendh- \"to bind.\"\n");
    assert_eq!(output, standard);
}

#[test]
fn etym_forest() {
    let page = "<h2 class=\"scroll-m-16\"><span>forest(n.)</span></h2><section class=\"-mt-4\"><p>late 13c., \"extensive tree-covered district,\"</p><img src=\"forest.png\" alt=\"forest\"></section><h2 class=\"scroll-m-16\"><span>forest(v.)</span></h2><section class=\"-mt-4\"><p>\"cover with trees or woods,\" 1818</p></section>";
    let intermediate = "forest(n.)\n\nlate 13c., \\\\\"extensive tree-covered district,\\\\\"\n\n![forest](forest.png)\n\nforest(v.)\n\n\\\\\"cover with trees or woods,\\\\\" 1818\n";
    let plain = "forest(n.)\n\nlate 13c., “extensive tree-covered district,” especially one set aside\nfor royal hunting and under the protection of the king, from Old French\nforest “forest, wood, woodland” (Modern French forêt), probably\nultimately from Late Latin/Medieval Latin forestem silvam “the outside\nwoods,” a term from the Capitularies of Charlemagne denoting “the royal\nforest.” This word comes to Medieval Latin, perhaps via a Germanic\nsource akin to Old High German forst, from Latin foris “outside” (see\nforeign). If so, the sense is “beyond the park,” the park (Latin parcus;\nsee park (n.)) being the main or central fenced woodland.\n\nAnother theory traces it through Medieval Latin forestis, originally\n“forest preserve, game preserve,” from Latin forum in legal sense\n“court, judgment;” in other words “land subject to a ban” [Buck].\nReplaced Old English wudu (see wood (n.)). Spanish and Portuguese\nfloresta have been influenced by flor “flower.”\n\nforest(v.)\n\n“cover with trees or woods,” 1818 (forested is attested from 1610s),\nfrom forest (n.). The earlier word was afforest (c.\u{a0}1500).\n";
    let standard = "forest (n.)\n\nlate 13c., “extensive tree-covered district,” especially one set aside\nfor royal hunting and under the protection of the king, from Old French\nforest “forest, wood, woodland” (Modern French forêt), probably\nultimately from Late Latin/Medieval Latin forestem silvam “the outside\nwoods,” a term from the Capitularies of Charlemagne denoting “the royal\nforest.” This word comes to Medieval Latin, perhaps via a Germanic\nsource akin to Old High German forst, from Latin foris “outside” (see\nforeign). If so, the sense is “beyond the park,” the park (Latin parcus;\nsee park (n.)) being the main or central fenced woodland.\n\nAnother theory traces it through Medieval Latin forestis, originally\n“forest preserve, game preserve,” from Latin forum in legal sense\n“court, judgment;” in other words “land subject to a ban” [Buck].\nReplaced Old English wudu (see wood (n.)). Spanish and Portuguese\nfloresta have been influenced by flor “flower.”\n\nforest (v.)\n\n“cover with trees or woods,” 1818 (forested is attested from 1610s),\nfrom forest (n.). The earlier word was afforest (c.\u{a0}1500).\n";

    let (output, cleaned) = full_sequence(Mode::Etymology, "forest", page, intermediate, plain);

    assert_eq!(cleaned, "forest(n.)\n\nlate 13c., \"extensive tree-covered district,\"\n\nforest(v.)\n\n\"cover with trees or woods,\" 1818\n");
    assert!(!cleaned.contains("!["));
    assert!(!cleaned.contains("\\\""));
    assert_eq!(output, standard);
}

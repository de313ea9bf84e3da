use twilio::twiml::{Message, Say, Twiml, Verb, Voice};

#[test]
fn message_text_keeps_apostrophes() {
    let m = Message { txt: "You told me: 'hi'".to_string() };
    assert_eq!(m.as_twiml(), "<Message>You told me: 'hi'</Message>");
}

#[test]
fn single_message_document() {
    let mut t = Twiml::new();
    t.add(Verb::Message(Message { txt: "You told me: 'hi'".to_string() }));
    assert_eq!(
        t.as_twiml(),
        "<?xml version=\"1.0\" encoding=\"UTF-8\"?><Response><Message>You told me: 'hi'</Message></Response>"
    );
}

#[test]
fn special_characters_are_escaped() {
    let m = Message { txt: "<a & \"b\">".to_string() };
    assert_eq!(m.as_twiml(), "<Message>&lt;a &amp; &quot;b&quot;&gt;</Message>");
}

#[test]
fn say_and_message_in_order() {
    let mut t = Twiml::new();
    t.add(Verb::Say(Say { txt: "Bye!".to_string(), voice: Voice::Woman, language: "en".to_string() }));
    t.add(Verb::Message(Message { txt: "x".to_string() }));
    assert_eq!(
        t.as_twiml(),
        "<?xml version=\"1.0\" encoding=\"UTF-8\"?><Response><Say voice=\"woman\" language=\"en\">Bye!</Say><Message>x</Message></Response>"
    );
}

#[test]
fn empty_document() {
    assert_eq!(
        Twiml::new().as_twiml(),
        "<?xml version=\"1.0\" encoding=\"UTF-8\"?><Response></Response>"
    );
}

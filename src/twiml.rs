use vstd::prelude::*;
use vstd::string::StringExecFns;

verus! {

/// Relies on `String::push`: appends one character.
#[verifier::external_body]
pub(crate) fn push_char(s: &mut String, c: char)
    ensures
        final(s)@ == old(s)@.push(c),
{
    s.push(c)
}

pub open spec fn amp() -> Seq<char> {
    seq!['&', 'a', 'm', 'p', ';']
}

pub open spec fn lt() -> Seq<char> {
    seq!['&', 'l', 't', ';']
}

pub open spec fn gt() -> Seq<char> {
    seq!['&', 'g', 't', ';']
}

pub open spec fn quot() -> Seq<char> {
    seq!['&', 'q', 'u', 'o', 't', ';']
}

/// How one character stands in XML text or in a quoted attribute value.
pub open spec fn escape_char(c: char) -> Seq<char> {
    if c == '&' {
        amp()
    } else if c == '<' {
        lt()
    } else if c == '>' {
        gt()
    } else if c == '"' {
        quot()
    } else {
        seq![c]
    }
}

/// `s` with each character escaped.
pub open spec fn escape(s: Seq<char>) -> Seq<char>
    decreases s.len(),
{
    if s.len() == 0 {
        Seq::empty()
    } else {
        escape(s.drop_last()) + escape_char(s.last())
    }
}

/// Reads escaped text back: each entity gives its character, any other
/// character stands for itself.
pub open spec fn unescape(s: Seq<char>) -> Seq<char>
    decreases s.len(),
{
    if s.len() == 0 {
        Seq::empty()
    } else if s.len() >= 5 && s.subrange(0, 5) == amp() {
        seq!['&'] + unescape(s.subrange(5, s.len() as int))
    } else if s.len() >= 4 && s.subrange(0, 4) == lt() {
        seq!['<'] + unescape(s.subrange(4, s.len() as int))
    } else if s.len() >= 4 && s.subrange(0, 4) == gt() {
        seq!['>'] + unescape(s.subrange(4, s.len() as int))
    } else if s.len() >= 6 && s.subrange(0, 6) == quot() {
        seq!['"'] + unescape(s.subrange(6, s.len() as int))
    } else {
        seq![s[0]] + unescape(s.drop_first())
    }
}

/// Appends `text` to `out`, escaped.
fn push_escaped(out: &mut String, text: &str)
    ensures
        final(out)@ == old(out)@ + escape(text@),
{
    proof {
        broadcast use vstd::string::axiom_spec_iter;
    }
    for c in it: text.chars()
        invariant
            it.seq() == text@,
            out@ == old(out)@ + escape(text@.subrange(0, it.index() as int)),
    {
        let ghost i = it.index();
        assert(text@.subrange(0, i + 1).drop_last() =~= text@.subrange(0, i as int));
        assert(c == text@[i as int]);
        let ghost before = out@;
        if c == '&' {
            out.append("&amp;");
            proof { reveal_strlit("&amp;"); }
        } else if c == '<' {
            out.append("&lt;");
            proof { reveal_strlit("&lt;"); }
        } else if c == '>' {
            out.append("&gt;");
            proof { reveal_strlit("&gt;"); }
        } else if c == '"' {
            out.append("&quot;");
            proof { reveal_strlit("&quot;"); }
        } else {
            push_char(out, c);
        }
        assert(out@ =~= before + escape_char(c));
        assert(out@ =~= old(out)@ + escape(text@.subrange(0, i + 1)));
    }
    assert(text@.subrange(0, text@.len() as int) =~= text@);
}

proof fn lemma_escape_front(s: Seq<char>)
    requires
        s.len() > 0,
    ensures
        escape(s) == escape_char(s[0]) + escape(s.drop_first()),
    decreases s.len(),
{
    if s.len() == 1 {
        assert(s.drop_last() =~= Seq::<char>::empty());
        assert(s.drop_first() =~= Seq::<char>::empty());
        assert(escape(s) =~= escape_char(s[0]) + escape(s.drop_first()));
    } else {
        let d = s.drop_last();
        lemma_escape_front(d);
        assert(s.drop_first().drop_last() =~= d.drop_first());
        assert(s.drop_first().last() == s.last());
        assert(d[0] == s[0]);
        assert(escape(s) =~= escape_char(s[0]) + escape(s.drop_first()));
    }
}

proof fn lemma_unescape_step(c: char, rest: Seq<char>)
    ensures
        unescape(escape_char(c) + rest) == seq![c] + unescape(rest),
{
    let e = escape_char(c) + rest;
    if c == '&' {
        assert(e.subrange(0, 5) =~= amp());
        assert(e.subrange(5, e.len() as int) =~= rest);
    } else if c == '<' {
        assert(e[1] == 'l');
        assert(e.len() >= 5 ==> e.subrange(0, 5)[1] != amp()[1]);
        assert(e.subrange(0, 4) =~= lt());
        assert(e.subrange(4, e.len() as int) =~= rest);
    } else if c == '>' {
        assert(e[1] == 'g');
        assert(e.len() >= 5 ==> e.subrange(0, 5)[1] != amp()[1]);
        assert(e.subrange(0, 4)[1] != lt()[1]);
        assert(e.subrange(0, 4) =~= gt());
        assert(e.subrange(4, e.len() as int) =~= rest);
    } else if c == '"' {
        assert(e[1] == 'q');
        assert(e.subrange(0, 5)[1] != amp()[1]);
        assert(e.subrange(0, 4)[1] != lt()[1]);
        assert(e.subrange(0, 4)[1] != gt()[1]);
        assert(e.subrange(0, 6) =~= quot());
        assert(e.subrange(6, e.len() as int) =~= rest);
    } else {
        assert(e[0] == c);
        assert(e.len() >= 5 ==> e.subrange(0, 5)[0] != amp()[0]);
        assert(e.len() >= 4 ==> e.subrange(0, 4)[0] != lt()[0]);
        assert(e.len() >= 4 ==> e.subrange(0, 4)[0] != gt()[0]);
        assert(e.len() >= 6 ==> e.subrange(0, 6)[0] != quot()[0]);
        assert(e.drop_first() =~= rest);
    }
}

/// Escaping loses nothing: reading the escaped text back gives the text.
pub proof fn lemma_unescape_escape(s: Seq<char>)
    ensures
        unescape(escape(s)) == s,
    decreases s.len(),
{
    if s.len() == 0 {
    } else {
        lemma_escape_front(s);
        lemma_unescape_step(s[0], escape(s.drop_first()));
        lemma_unescape_escape(s.drop_first());
        assert(seq![s[0]] + s.drop_first() =~= s);
    }
}

/// The two voices of the spoken-text verb.
#[derive(Debug, Clone, Copy, PartialEq, Eq, Structural)]
pub enum Voice {
    Man,
    Woman,
}

pub open spec fn voice_name(v: Voice) -> Seq<char> {
    match v {
        Voice::Man => "man"@,
        Voice::Woman => "woman"@,
    }
}

/// Speaks `txt` in `voice` and `language`.
#[derive(Debug, Clone)]
pub struct Say {
    pub txt: String,
    pub voice: Voice,
    pub language: String,
}

/// Sends `txt` as a message.
#[derive(Debug, Clone)]
pub struct Message {
    pub txt: String,
}

/// One node of a markup response.
#[derive(Debug, Clone)]
pub enum Verb {
    Say(Say),
    Message(Message),
}

pub open spec fn message_markup(txt: Seq<char>) -> Seq<char> {
    "<Message>"@ + escape(txt) + "</Message>"@
}

pub open spec fn say_markup(txt: Seq<char>, voice: Voice, language: Seq<char>) -> Seq<char> {
    "<Say voice=\""@ + voice_name(voice) + "\" language=\""@ + escape(language) + "\">"@
        + escape(txt) + "</Say>"@
}

pub open spec fn verb_markup(v: Verb) -> Seq<char> {
    match v {
        Verb::Say(s) => say_markup(s.txt@, s.voice, s.language@),
        Verb::Message(m) => message_markup(m.txt@),
    }
}

/// The markup of each verb, in order, with nothing between them.
pub open spec fn verbs_markup(vs: Seq<Verb>) -> Seq<char>
    decreases vs.len(),
{
    if vs.len() == 0 {
        Seq::empty()
    } else {
        verbs_markup(vs.drop_last()) + verb_markup(vs.last())
    }
}

pub open spec fn document_head() -> Seq<char> {
    "<?xml version=\"1.0\" encoding=\"UTF-8\"?><Response>"@
}

pub open spec fn document_tail() -> Seq<char> {
    "</Response>"@
}

/// A whole response: the verbs inside the single root element.
pub open spec fn document(vs: Seq<Verb>) -> Seq<char> {
    document_head() + verbs_markup(vs) + document_tail()
}

impl Message {
    pub fn as_twiml(&self) -> (r: String)
        ensures
            r@ == message_markup(self.txt@),
    {
        let mut out = String::from_str("<Message>");
        push_escaped(&mut out, self.txt.as_str());
        out.append("</Message>");
        out
    }
}

impl Say {
    pub fn as_twiml(&self) -> (r: String)
        ensures
            r@ == say_markup(self.txt@, self.voice, self.language@),
    {
        let mut out = String::from_str("<Say voice=\"");
        match self.voice {
            Voice::Man => out.append("man"),
            Voice::Woman => out.append("woman"),
        }
        out.append("\" language=\"");
        push_escaped(&mut out, self.language.as_str());
        out.append("\">");
        push_escaped(&mut out, self.txt.as_str());
        out.append("</Say>");
        out
    }
}

impl Verb {
    pub fn as_twiml(&self) -> (r: String)
        ensures
            r@ == verb_markup(*self),
    {
        match self {
            Verb::Say(s) => s.as_twiml(),
            Verb::Message(m) => m.as_twiml(),
        }
    }
}

/// An ordered sequence of verbs, serialized once as a whole.
#[derive(Debug, Clone)]
pub struct Twiml {
    pub verbs: Vec<Verb>,
}

impl Twiml {
    pub fn new() -> (r: Twiml)
        ensures
            r.verbs@.len() == 0,
    {
        Twiml { verbs: Vec::new() }
    }

    /// Appends a verb after those already added.
    pub fn add(&mut self, v: Verb)
        ensures
            final(self).verbs@ == old(self).verbs@.push(v),
    {
        self.verbs.push(v);
    }

    pub fn as_twiml(&self) -> (r: String)
        ensures
            r@ == document(self.verbs@),
    {
        let mut out = String::from_str("<?xml version=\"1.0\" encoding=\"UTF-8\"?><Response>");
        let mut i: usize = 0;
        while i < self.verbs.len()
            invariant
                i <= self.verbs@.len(),
                out@ == document_head() + verbs_markup(self.verbs@.subrange(0, i as int)),
            decreases self.verbs@.len() - i,
        {
            assert(self.verbs@.subrange(0, i + 1).drop_last() =~= self.verbs@.subrange(0, i as int));
            let part = self.verbs[i].as_twiml();
            out.append(part.as_str());
            assert(out@ =~= document_head() + verbs_markup(self.verbs@.subrange(0, i + 1)));
            i = i + 1;
        }
        assert(self.verbs@.subrange(0, i as int) =~= self.verbs@);
        out.append("</Response>");
        assert(out@ =~= document(self.verbs@));
        out
    }
}

/// A response of one message verb is the root element around a single
/// message element, whose escaped text reads back as the message text.
pub proof fn lemma_single_message_round_trip(m: Message)
    ensures
        document(seq![Verb::Message(m)]) == document_head() + message_markup(m.txt@)
            + document_tail(),
        unescape(escape(m.txt@)) == m.txt@,
{
    let vs = seq![Verb::Message(m)];
    assert(vs.drop_last() =~= Seq::<Verb>::empty());
    assert(verbs_markup(vs.drop_last()) =~= Seq::<char>::empty());
    assert(vs.last() == Verb::Message(m));
    assert(verbs_markup(vs) =~= message_markup(m.txt@));
    lemma_unescape_escape(m.txt@);
}

} // verus!

//! What the program has logged, kept for display.
use vstd::prelude::*;
use vstd::string::StringExecFns;

verus! {

/// The text that a row of bytes encodes in UTF-8, by `std::str::from_utf8`. Trusted: it gives a
/// text just where the bytes are well-formed UTF-8, and then the text that they encode.
#[verifier::external_body]
fn decode(bytes: &[u8]) -> (text: Option<&str>)
    ensures
        text is Some <==> vstd::utf8::valid_utf8(bytes@),
        text is Some ==> text->0@ == vstd::utf8::decode_utf8(bytes@),
{
    std::str::from_utf8(bytes).ok()
}

/// The texts of a row, one after the other.
pub open spec fn joined(texts: Seq<Seq<char>>) -> Seq<char>
    decreases texts.len(),
{
    if texts.len() == 0 {
        seq![]
    } else {
        joined(texts.drop_last()) + texts.last()
    }
}

/// The log that is shown in the window.
pub struct GuiLog {
    logs: Vec<String>,
}

impl View for GuiLog {
    type V = Seq<Seq<char>>;

    closed spec fn view(&self) -> Seq<Seq<char>> {
        self.logs@.map_values(|text: String| text@)
    }
}

impl GuiLog {
    /// An empty log.
    pub fn new() -> (log: GuiLog)
        ensures
            log@ == Seq::<Seq<char>>::empty(),
    {
        let log = GuiLog { logs: Vec::new() };
        assert(log@ =~= Seq::<Seq<char>>::empty());
        log
    }

    /// Adds what a logger wrote, and says how many bytes were taken: all of them.
    pub fn write(&mut self, buf: &[u8]) -> (taken: usize)
        requires
            vstd::utf8::valid_utf8(buf@),
        ensures
            final(self)@ == old(self)@.push(vstd::utf8::decode_utf8(buf@)),
            taken == buf@.len(),
    {
        if let Some(text) = decode(buf) {
            self.logs.push(text.to_string());
            assert(self@ =~= old(self)@.push(vstd::utf8::decode_utf8(buf@)));
        }
        buf.len()
    }

    /// The whole log as one text.
    pub fn text(&self) -> (text: String)
        ensures
            text@ == joined(self@),
    {
        let mut text = String::new();
        let mut i: usize = 0;
        assert(self@.take(0) =~= seq![]);
        while i < self.logs.len()
            invariant
                i <= self.logs.len(),
                self@.len() == self.logs.len(),
                text@ == joined(self@.take(i as int)),
            decreases self.logs.len() - i,
        {
            text.append(self.logs[i].as_str());
            i += 1;
            assert(self@.take(i as int).drop_last() =~= self@.take(i - 1));
        }
        assert(self@.take(i as int) =~= self@);
        text
    }
}

/// A log that has taken one more piece reads as before, with that piece at the end.
pub proof fn law_log_grows_at_the_end(log: Seq<Seq<char>>, piece: Seq<char>)
    ensures
        joined(log.push(piece)) == joined(log) + piece,
{
    assert(log.push(piece).drop_last() =~= log);
}

} // verus!

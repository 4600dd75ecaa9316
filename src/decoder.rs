use vstd::prelude::*;

verus! {

/// The tokens a greedy decode emits from the per-step picks `picks`: every
/// pick but the blank, in order.
pub open spec fn emitted(blank: u32, picks: Seq<u32>) -> Seq<u32> {
    picks.filter(|t: u32| t != blank)
}

/// The decoder input after the picks `picks`: the last token emitted, or the
/// blank while none has been.
pub open spec fn context_token(blank: u32, picks: Seq<u32>) -> u32 {
    let out = emitted(blank, picks);
    if out.len() == 0 {
        blank
    } else {
        out.last()
    }
}

/// The decisions of greedy transducer decoding, one encoder step at a time.
///
/// At each step the caller runs the decoder and joiner network on the step's
/// encoder frame and on `last_token()`, takes the index of the largest logit
/// (the first one on ties), and hands it to `step`. One pick is made per
/// encoder step.
pub struct GreedyDecoder {
    blank: u32,
    last_token: u32,
    tokens: Vec<u32>,
    picks: Ghost<Seq<u32>>,
}

impl GreedyDecoder {
    /// The picks handed in so far.
    pub closed spec fn history(&self) -> Seq<u32> {
        self.picks@
    }

    pub closed spec fn blank_id(&self) -> u32 {
        self.blank
    }

    /// The tokens emitted so far.
    pub closed spec fn output(&self) -> Seq<u32> {
        self.tokens@
    }

    pub closed spec fn context(&self) -> u32 {
        self.last_token
    }

    /// The emitted tokens are the non-blank picks, and the decoder input is
    /// the last of them.
    pub open spec fn wf(&self) -> bool {
        &&& self.output() == emitted(self.blank_id(), self.history())
        &&& self.context() == context_token(self.blank_id(), self.history())
    }

    /// A decoder that has seen no step; its first input is the blank.
    pub fn new(blank: u32) -> (r: Self)
        ensures
            r.wf(),
            r.blank_id() == blank,
            r.history() == Seq::<u32>::empty(),
            r.output() == Seq::<u32>::empty(),
            r.context() == blank,
    {
        let r = GreedyDecoder {
            blank,
            last_token: blank,
            tokens: Vec::new(),
            picks: Ghost(Seq::empty()),
        };
        assert(emitted(blank, Seq::empty()) =~= Seq::<u32>::empty());
        r
    }

    /// The token to feed the decoder network at the next step.
    pub fn last_token(&self) -> (r: u32)
        ensures
            r == self.context(),
    {
        self.last_token
    }

    /// Records the pick `argmax` of one encoder step: a non-blank pick is
    /// emitted and becomes the next decoder input; a blank emits nothing.
    pub fn step(&mut self, argmax: u32)
        requires
            old(self).wf(),
        ensures
            final(self).wf(),
            final(self).blank_id() == old(self).blank_id(),
            final(self).history() == old(self).history().push(argmax),
            argmax != old(self).blank_id() ==> final(self).output() == old(self).output().push(
                argmax,
            ) && final(self).context() == argmax,
            argmax == old(self).blank_id() ==> final(self).output() == old(self).output()
                && final(self).context() == old(self).context(),
    {
        let ghost before = self.picks@;
        proof {
            reveal_with_fuel(Seq::filter, 1);
            assert(before.push(argmax).drop_last() == before);
        }
        if argmax != self.blank {
            self.tokens.push(argmax);
            self.last_token = argmax;
        }
        self.picks = Ghost(before.push(argmax));
    }

    /// The tokens emitted so far.
    pub fn tokens(&self) -> (r: &Vec<u32>)
        ensures
            r@ == self.output(),
    {
        &self.tokens
    }

    /// The emitted tokens, ending the decode.
    pub fn into_tokens(self) -> (r: Vec<u32>)
        ensures
            r@ == self.output(),
    {
        self.tokens
    }
}

} // verus!

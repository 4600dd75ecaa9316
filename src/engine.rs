use vstd::prelude::*;

use crate::error::EngineError;
use crate::text::lines_seq;
use crate::vocabulary::{decoded_text, line_table, Vocabulary};

verus! {

/// The only sample rate the transducer models accept.
pub const REQUIRED_SAMPLE_RATE: u32 = 16000;

/// Shortest window, in milliseconds, that the transducer backends transcribe.
pub const MIN_DURATION_MS: u32 = 100;

/// Whether `len` samples at `rate` Hz last less than `min_ms` milliseconds.
pub open spec fn too_short(len: nat, rate: nat, min_ms: nat) -> bool {
    len * 1000 < min_ms * rate
}

/// What a transducer backend says of a window of `len` samples at `rate`
/// Hz before any inference: the wrong rate, then too short a window, is an
/// error; anything else may go on.
pub open spec fn input_verdict(len: nat, rate: u32) -> Result<(), EngineError> {
    if rate != REQUIRED_SAMPLE_RATE {
        Err(EngineError::InvalidSampleRate(rate))
    } else if too_short(len, rate as nat, MIN_DURATION_MS as nat) {
        Err(EngineError::AudioTooShort)
    } else {
        Ok(())
    }
}

/// Checks a window of `sample_count` samples at `sample_rate` Hz: the rate
/// must be 16 kHz, and the window must last at least `MIN_DURATION_MS`.
pub fn check_input(sample_count: usize, sample_rate: u32) -> (r: Result<(), EngineError>)
    ensures
        r == input_verdict(sample_count as nat, sample_rate),
{
    if sample_rate != REQUIRED_SAMPLE_RATE {
        return Err(EngineError::InvalidSampleRate(sample_rate));
    }
    if (sample_count as u128) * 1000 < (MIN_DURATION_MS as u128) * (sample_rate as u128) {
        return Err(EngineError::AudioTooShort);
    }
    Ok(())
}

/// Whatever the audio, a rate other than 16 kHz is refused as an invalid
/// sample rate.
pub proof fn lemma_wrong_rate_refused(len: nat, rate: u32)
    requires
        rate != REQUIRED_SAMPLE_RATE,
    ensures
        input_verdict(len, rate) == Err::<(), EngineError>(EngineError::InvalidSampleRate(rate)),
{
}

/// At 16 kHz, a window shorter than the minimum is refused as too short, so
/// no inference is attempted on it.
pub proof fn lemma_short_window_refused(len: nat)
    requires
        too_short(len, REQUIRED_SAMPLE_RATE as nat, MIN_DURATION_MS as nat),
    ensures
        input_verdict(len, REQUIRED_SAMPLE_RATE) == Err::<(), EngineError>(
            EngineError::AudioTooShort,
        ),
{
}

/// The transducer model variants.
#[derive(PartialEq, Eq, Structural, Clone, Copy, Debug, Default)]
pub enum ParakeetModelSize {
    #[default]
    Tdt06bV3,
}

impl ParakeetModelSize {
    /// The model's directory name.
    pub fn model_name(&self) -> (r: &'static str)
        ensures
            r@ == "parakeet-tdt-0.6b-v3"@,
    {
        match self {
            ParakeetModelSize::Tdt06bV3 => "parakeet-tdt-0.6b-v3",
        }
    }

    /// The model's name for people.
    pub fn display_name(&self) -> (r: &'static str)
        ensures
            r@ == "Parakeet TDT 0.6B v3"@,
    {
        match self {
            ParakeetModelSize::Tdt06bV3 => "Parakeet TDT 0.6B v3",
        }
    }
}

/// The transducer backend's own state: its token table and model variant.
/// The two networks it drives are held beside it by the caller, each behind
/// its own lock.
pub struct ParakeetEngine {
    vocab: Vocabulary,
    model_size: ParakeetModelSize,
}

impl ParakeetEngine {
    pub closed spec fn vocabulary(&self) -> Vocabulary {
        self.vocab
    }

    pub closed spec fn size(&self) -> ParakeetModelSize {
        self.model_size
    }

    /// An engine whose token table is `vocab_text`, one token per line, with
    /// the blank id 0.
    pub fn new(vocab_text: &str, model_size: ParakeetModelSize) -> (r: Result<Self, EngineError>)
        ensures
            lines_seq(vocab_text@).len() <= u32::MAX ==> (r matches Ok(e)
                && e.vocabulary().tokens() == line_table(lines_seq(vocab_text@))
                && e.vocabulary().blank() == 0 && e.size() == model_size),
            lines_seq(vocab_text@).len() > u32::MAX ==> (r matches Err(
                EngineError::VocabularyError(_),
            )),
    {
        match Vocabulary::from_lines(vocab_text) {
            Ok(vocab) => Ok(ParakeetEngine { vocab, model_size }),
            Err(e) => Err(e),
        }
    }

    /// Checks a window before inference; see `check_input`.
    pub fn check_input(&self, sample_count: usize, sample_rate: u32) -> (r: Result<
        (),
        EngineError,
    >)
        ensures
            r == input_verdict(sample_count as nat, sample_rate),
    {
        check_input(sample_count, sample_rate)
    }

    /// The text of the tokens the decoder emitted.
    pub fn decode_tokens(&self, token_ids: &[u32]) -> (r: String)
        ensures
            r@ == decoded_text(self.vocabulary().tokens(), self.vocabulary().blank(), token_ids@),
    {
        self.vocab.decode(token_ids)
    }

    /// The blank id of the engine's table.
    pub fn blank_id(&self) -> (r: u32)
        ensures
            r == self.vocabulary().blank(),
    {
        self.vocab.blank_token_id()
    }

    pub fn name(&self) -> (r: &'static str)
        ensures
            r@ == "Parakeet"@,
    {
        "Parakeet"
    }

    /// "Parakeet " followed by the model's display name.
    pub fn model_display_name(&self) -> (r: String)
        ensures
            r@ == "Parakeet "@ + "Parakeet TDT 0.6B v3"@,
    {
        let mut out = String::from_str("Parakeet ");
        out.append(self.model_size.display_name());
        out
    }
}

/// What the sidecar process gave back: either it failed, with its error
/// output, or it printed a reply.
pub enum SidecarRun {
    Failed { stderr: String },
    Replied { text: String, error: Option<String> },
}

/// The transcription, or the error, that a sidecar run amounts to.
pub open spec fn sidecar_outcome(run: SidecarRun) -> Result<Seq<char>, Seq<char>> {
    match run {
        SidecarRun::Failed { stderr } => Err("Sidecar failed: "@ + stderr@),
        SidecarRun::Replied { text, error } => match error {
            Some(e) => Err(e@),
            None => Ok(text@),
        },
    }
}

/// The transducer backend run as a separate process, which reads a WAV file
/// and prints its transcription as JSON.
pub struct ParakeetCoreMLEngine {
    sidecar_path: String,
}

impl ParakeetCoreMLEngine {
    pub closed spec fn path(&self) -> Seq<char> {
        self.sidecar_path@
    }

    /// An engine that runs the executable at `sidecar_path`; an error when
    /// no such file exists (`sidecar_present` is false).
    pub fn new(sidecar_path: String, sidecar_present: bool) -> (r: Result<Self, String>)
        ensures
            sidecar_present ==> (r matches Ok(e) && e.path() == sidecar_path@),
            !sidecar_present ==> (r matches Err(m) && m@ == "Parakeet CoreML sidecar not found: "@
                + sidecar_path@),
    {
        if !sidecar_present {
            let mut msg = String::from_str("Parakeet CoreML sidecar not found: ");
            msg.append(sidecar_path.as_str());
            return Err(msg);
        }
        Ok(ParakeetCoreMLEngine { sidecar_path })
    }

    /// The executable's path.
    pub fn sidecar_path(&self) -> (r: &String)
        ensures
            r@ == self.path(),
    {
        &self.sidecar_path
    }

    /// Checks a window before it is written out; see `check_input`.
    pub fn check_input(&self, sample_count: usize, sample_rate: u32) -> (r: Result<
        (),
        EngineError,
    >)
        ensures
            r == input_verdict(sample_count as nat, sample_rate),
    {
        check_input(sample_count, sample_rate)
    }

    /// The transcription of a sidecar run: a failed process gives its error
    /// output, a reply with an error gives that error, else the reply's text.
    pub fn interpret(&self, run: SidecarRun) -> (r: Result<String, String>)
        ensures
            match (r, sidecar_outcome(run)) {
                (Ok(t), Ok(u)) => t@ == u,
                (Err(t), Err(u)) => t@ == u,
                _ => false,
            },
    {
        match run {
            SidecarRun::Failed { stderr } => {
                let mut msg = String::from_str("Sidecar failed: ");
                msg.append(stderr.as_str());
                Err(msg)
            },
            SidecarRun::Replied { text, error } => match error {
                Some(e) => Err(e),
                None => Ok(text),
            },
        }
    }

    pub fn name(&self) -> (r: &'static str)
        ensures
            r@ == "Parakeet CoreML"@,
    {
        "Parakeet CoreML"
    }

    pub fn model_display_name(&self) -> (r: String)
        ensures
            r@ == "Parakeet TDT 0.6B v3 (CoreML)"@,
    {
        String::from_str("Parakeet TDT 0.6B v3 (CoreML)")
    }
}

} // verus!

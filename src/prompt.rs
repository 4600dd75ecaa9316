use vstd::prelude::*;

verus! {

/// How far a language model rewrites a transcript.
#[derive(PartialEq, Eq, Structural, Clone, Copy, Debug)]
pub enum LlmMode {
    Off,
    Basic,
    Smart,
    Contextual,
}

/// What the user is dictating.
#[derive(PartialEq, Eq, Structural, Clone, Copy, Debug)]
pub enum DictationMode {
    General,
    Email,
    Code,
    Notes,
}

pub const PROMPT_BASIC: &'static str = "Tu es un correcteur de texte. Corrige uniquement la ponctuation, les majuscules et les fautes de grammaire évidentes. Ne modifie pas le sens ni le style. Retourne uniquement le texte corrigé, sans explication.";

pub const PROMPT_SMART: &'static str = "Tu es un assistant d'écriture. Corrige la ponctuation et la grammaire, supprime les hésitations (euh, hum, ben) et les répétitions inutiles. Reformule légèrement pour plus de clarté si nécessaire. Retourne uniquement le texte amélioré.";

pub const PROMPT_EMAIL: &'static str = "Tu es un assistant d'écriture professionnelle. Transforme ce texte dicté en email professionnel. Ajoute les formules de politesse appropriées si absentes. Garde un ton formel mais naturel. Retourne uniquement l'email formaté.";

pub const PROMPT_CODE: &'static str = "Tu es un assistant technique. Formate ce texte en documentation de code ou commentaire technique. Utilise la terminologie appropriée. Structure clairement. Retourne uniquement le texte formaté.";

pub const PROMPT_NOTES: &'static str = "Tu es un assistant de prise de notes. Organise ce texte en notes structurées avec puces si approprié. Garde les points essentiels, supprime le superflu. Retourne uniquement les notes formatées.";

/// The system prompt for a mode: none when rewriting is off, and in the
/// contextual mode the one that suits what is dictated.
pub open spec fn prompt_for(llm_mode: LlmMode, dictation_mode: DictationMode) -> Seq<char> {
    match llm_mode {
        LlmMode::Off => ""@,
        LlmMode::Basic => PROMPT_BASIC@,
        LlmMode::Smart => PROMPT_SMART@,
        LlmMode::Contextual => match dictation_mode {
            DictationMode::Email => PROMPT_EMAIL@,
            DictationMode::Code => PROMPT_CODE@,
            DictationMode::Notes => PROMPT_NOTES@,
            DictationMode::General => PROMPT_SMART@,
        },
    }
}

/// The system prompt for a mode.
pub fn get_prompt(llm_mode: LlmMode, dictation_mode: DictationMode) -> (r: &'static str)
    ensures
        r@ == prompt_for(llm_mode, dictation_mode),
{
    match llm_mode {
        LlmMode::Off => "",
        LlmMode::Basic => PROMPT_BASIC,
        LlmMode::Smart => PROMPT_SMART,
        LlmMode::Contextual => match dictation_mode {
            DictationMode::Email => PROMPT_EMAIL,
            DictationMode::Code => PROMPT_CODE,
            DictationMode::Notes => PROMPT_NOTES,
            DictationMode::General => PROMPT_SMART,
        },
    }
}

} // verus!

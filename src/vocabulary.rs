use vstd::prelude::*;

use std::collections::HashMap;

use crate::error::EngineError;
use crate::text::{lines_seq, replace_char, replace_char_seq, text_lines, trim_seq, trim_text};

verus! {

broadcast use vstd::std_specs::hash::group_hash_axioms;

/// The SentencePiece word-boundary marker, U+2581.
pub const WORD_MARKER: char = '\u{2581}';

/// The blank id of vocabularies read from a JSON table.
pub const JSON_BLANK_ID: u32 = 8192;

/// The text a single token id contributes: nothing for the blank id or an
/// unknown id, else the token with each word marker turned into a space.
pub open spec fn token_piece(tokens: Map<u32, Seq<char>>, blank: u32, id: u32) -> Seq<char> {
    if id == blank || !tokens.contains_key(id) {
        Seq::empty()
    } else {
        replace_char_seq(tokens[id], WORD_MARKER, seq![' '])
    }
}

/// The pieces of `ids`, one after the other.
pub open spec fn joined_pieces(tokens: Map<u32, Seq<char>>, blank: u32, ids: Seq<u32>) -> Seq<
    char,
>
    decreases ids.len(),
{
    if ids.len() == 0 {
        Seq::empty()
    } else {
        joined_pieces(tokens, blank, ids.drop_last()) + token_piece(tokens, blank, ids.last())
    }
}

/// The text of a token sequence: its pieces joined, then trimmed.
pub open spec fn decoded_text(tokens: Map<u32, Seq<char>>, blank: u32, ids: Seq<u32>) -> Seq<
    char,
> {
    trim_seq(joined_pieces(tokens, blank, ids))
}

/// The id-to-token table of (token, id) entries: a later entry for an id
/// replaces an earlier one.
pub open spec fn inverted(entries: Seq<(Seq<char>, u32)>) -> Map<u32, Seq<char>>
    decreases entries.len(),
{
    if entries.len() == 0 {
        Map::empty()
    } else {
        inverted(entries.drop_last()).insert(entries.last().1, entries.last().0)
    }
}

/// The (token, id) entries as plain values.
pub open spec fn entries_view(entries: Seq<(String, u32)>) -> Seq<(Seq<char>, u32)> {
    entries.map_values(|e: (String, u32)| (e.0@, e.1))
}

/// The table of a line-per-token file: line `i`, trimmed, is token `i`.
pub open spec fn line_table(lines: Seq<Seq<char>>) -> Map<u32, Seq<char>> {
    Map::new(|k: u32| (k as int) < lines.len(), |k: u32| trim_seq(lines[k as int]))
}

/// What a JSON object of token strings to ids holds, as (token, id)
/// entries in the order the parser hands them out; nothing when the text is
/// not such an object.
pub uninterp spec fn json_vocab_entries(text: Seq<char>) -> Option<Seq<(Seq<char>, u32)>>;

/// Relies on `serde_json::from_str` into a `BTreeMap<String, u32>`: the
/// entries of the JSON object, or the parser's message when the text is not
/// an object of strings to `u32` ids.
#[verifier::external_body]
fn parse_vocab_json(text: &str) -> (r: Result<Vec<(String, u32)>, String>)
    ensures
        match r {
            Ok(v) => json_vocab_entries(text@) == Some(entries_view(v@)),
            Err(_) => json_vocab_entries(text@) is None,
        },
{
    serde_json::from_str::<std::collections::BTreeMap<String, u32>>(text).map(
        |m| m.into_iter().collect(),
    ).map_err(|e| e.to_string())
}

/// A token table with one id reserved as the blank.
pub struct Vocabulary {
    tokens: HashMap<u32, String>,
    blank_token_id: u32,
}

impl Vocabulary {
    /// The id-to-token table.
    pub closed spec fn tokens(&self) -> Map<u32, Seq<char>> {
        self.tokens@.map_values(|s: String| s@)
    }

    /// The blank id.
    pub closed spec fn blank(&self) -> u32 {
        self.blank_token_id
    }

    /// The table of `entries`, each a (token, id) pair, with `blank` as the
    /// blank id.
    pub fn from_entries(entries: Vec<(String, u32)>, blank: u32) -> (r: Self)
        ensures
            r.tokens() == inverted(entries_view(entries@)),
            r.blank() == blank,
    {
        let mut tokens: HashMap<u32, String> = HashMap::new();
        let ghost view = entries_view(entries@);
        let mut i: usize = 0;
        while i < entries.len()
            invariant
                i <= entries@.len(),
                view == entries_view(entries@),
                tokens@.map_values(|s: String| s@) == inverted(view.subrange(0, i as int)),
            decreases entries@.len() - i,
        {
            let token = entries[i].0.clone();
            let id = entries[i].1;
            tokens.insert(id, token);
            i = i + 1;
            proof {
                let prefix = view.subrange(0, i as int);
                assert(prefix.drop_last() == view.subrange(0, i - 1));
                assert(tokens@.map_values(|s: String| s@) =~= inverted(prefix));
            }
        }
        assert(view.subrange(0, i as int) == view);
        Vocabulary { tokens, blank_token_id: blank }
    }

    /// The table of a JSON object of token strings to ids, with the blank id
    /// 8192; a vocabulary error when the text is not such an object.
    pub fn from_json(text: &str) -> (r: Result<Self, EngineError>)
        ensures
            match json_vocab_entries(text@) {
                Some(entries) => r matches Ok(v) && v.tokens() == inverted(entries) && v.blank()
                    == JSON_BLANK_ID,
                None => r matches Err(EngineError::VocabularyError(_)),
            },
    {
        match parse_vocab_json(text) {
            Ok(entries) => Ok(Vocabulary::from_entries(entries, JSON_BLANK_ID)),
            Err(msg) => {
                let mut out = String::from_str("Failed to parse vocab JSON: ");
                out.append(msg.as_str());
                Err(EngineError::VocabularyError(out))
            },
        }
    }

    /// The table of a text with one token per line, line `i` (trimmed) being
    /// token `i`, with the blank id 0; a vocabulary error when there are more
    /// lines than `u32` ids.
    pub fn from_lines(text: &str) -> (r: Result<Self, EngineError>)
        ensures
            lines_seq(text@).len() <= u32::MAX ==> (r matches Ok(v) && v.tokens() == line_table(
                lines_seq(text@),
            ) && v.blank() == 0),
            lines_seq(text@).len() > u32::MAX ==> (r matches Err(EngineError::VocabularyError(_))),
    {
        let lines = text_lines(text);
        let ghost ls = lines_seq(text@);
        if lines.len() > 0xffff_ffff {
            return Err(EngineError::VocabularyError(String::from_str("too many lines")));
        }
        let mut tokens: HashMap<u32, String> = HashMap::new();
        let mut i: usize = 0;
        while i < lines.len()
            invariant
                i <= lines@.len() <= 0xffff_ffff,
                lines@.map_values(|l: String| l@) == ls,
                tokens@.map_values(|s: String| s@) == line_table(ls.subrange(0, i as int)),
            decreases lines@.len() - i,
        {
            let token = String::from_str(trim_text(lines[i].as_str()));
            let ghost old_tokens = tokens@;
            let ghost tok = token@;
            tokens.insert(i as u32, token);
            i = i + 1;
            proof {
                let cur = ls.subrange(0, i as int);
                let prev = ls.subrange(0, i - 1);
                let key = (i - 1) as u32;
                assert(ls[i - 1] == lines@[i - 1]@);
                assert(tok == trim_seq(ls[i - 1]));
                assert(tokens@ == old_tokens.insert(key, tokens@[key]));
                let m = tokens@.map_values(|s: String| s@);
                let t = line_table(cur);
                assert forall|k: u32| #[trigger] m.contains_key(k) == t.contains_key(k) by {
                    if k == key {
                    } else {
                        assert(old_tokens.map_values(|s: String| s@).contains_key(k) == line_table(
                            prev,
                        ).contains_key(k));
                    }
                }
                assert forall|k: u32| #[trigger] m.contains_key(k) implies m[k] == t[k] by {
                    if k == key {
                        assert(cur[k as int] == ls[i - 1]);
                    } else {
                        assert(old_tokens.map_values(|s: String| s@)[k] == line_table(prev)[k]);
                        assert(cur[k as int] == prev[k as int]);
                    }
                }
                assert(m =~= t);
            }
        }
        assert(ls.subrange(0, i as int) == ls);
        Ok(Vocabulary { tokens, blank_token_id: 0 })
    }

    /// The blank id.
    pub fn blank_token_id(&self) -> (r: u32)
        ensures
            r == self.blank(),
    {
        self.blank_token_id
    }

    /// Number of ids in the table.
    pub fn vocab_size(&self) -> (r: usize)
        ensures
            r == self.tokens().dom().len(),
    {
        assert(self.tokens().dom() =~= self.tokens@.dom());
        self.tokens.len()
    }

    /// The text of `token_ids`: blank and unknown ids are skipped, each
    /// other token has its word markers turned into spaces, and the joined
    /// text is trimmed.
    pub fn decode(&self, token_ids: &[u32]) -> (r: String)
        ensures
            r@ == decoded_text(self.tokens(), self.blank(), token_ids@),
    {
        let mut result = String::new();
        let mut i: usize = 0;
        while i < token_ids.len()
            invariant
                i <= token_ids@.len(),
                result@ == joined_pieces(
                    self.tokens(),
                    self.blank(),
                    token_ids@.subrange(0, i as int),
                ),
            decreases token_ids@.len() - i,
        {
            let id = token_ids[i];
            let ghost before = result@;
            if id != self.blank_token_id {
                match self.tokens.get(&id) {
                    Some(token) => {
                        let piece = replace_char(token.as_str(), WORD_MARKER, " ");
                        proof {
                            reveal_strlit(" ");
                            assert(" "@ =~= seq![' ']);
                            assert(self.tokens().contains_key(id));
                            assert(self.tokens()[id] == token@);
                        }
                        result.append(piece.as_str());
                        assert(result@ == before + token_piece(self.tokens(), self.blank(), id));
                    },
                    None => {
                        assert(!self.tokens().contains_key(id));
                        assert(result@ == before + token_piece(self.tokens(), self.blank(), id));
                    },
                }
            } else {
                assert(result@ == before + token_piece(self.tokens(), self.blank(), id));
            }
            i = i + 1;
            proof {
                let s = token_ids@.subrange(0, i as int);
                assert(s.drop_last() == token_ids@.subrange(0, i - 1));
                assert(s.last() == id);
            }
        }
        assert(token_ids@.subrange(0, i as int) == token_ids@);
        String::from_str(trim_text(result.as_str()))
    }
}

/// Blank ids change nothing in the decoded text: decoding a sequence gives
/// the same text as decoding it with every blank id removed first.
pub proof fn lemma_decode_ignores_blanks(tokens: Map<u32, Seq<char>>, blank: u32, ids: Seq<u32>)
    ensures
        decoded_text(tokens, blank, ids) == decoded_text(
            tokens,
            blank,
            ids.filter(|id: u32| id != blank),
        ),
    decreases ids.len(),
{
    lemma_pieces_ignore_blanks(tokens, blank, ids);
}

proof fn lemma_pieces_ignore_blanks(tokens: Map<u32, Seq<char>>, blank: u32, ids: Seq<u32>)
    ensures
        joined_pieces(tokens, blank, ids) == joined_pieces(
            tokens,
            blank,
            ids.filter(|id: u32| id != blank),
        ),
    decreases ids.len(),
{
    if ids.len() > 0 {
        let pred = |id: u32| id != blank;
        lemma_pieces_ignore_blanks(tokens, blank, ids.drop_last());
        reveal_with_fuel(Seq::filter, 1);
        let sub = ids.drop_last().filter(pred);
        if pred(ids.last()) {
            assert(ids.filter(pred) == sub.push(ids.last()));
            assert(ids.filter(pred).drop_last() == sub);
        } else {
            assert(ids.filter(pred) == sub);
            assert(token_piece(tokens, blank, ids.last()) == Seq::<char>::empty());
            assert(joined_pieces(tokens, blank, ids) =~= joined_pieces(tokens, blank, sub));
        }
    }
}

} // verus!

//! The selectable alarm sounds and how they are named.
//!
//! The tones themselves are synthesised sample by sample in floating point
//! and played as media audio; that part lives with the audio output, outside
//! this library. Here is what the alarm logic needs: which sound, and how a
//! user-supplied name selects one.

use crate::text::{lowercase, text_eq, to_ascii_lowercase, ascii_lower};
use vstd::prelude::*;
use vstd::string::*;

verus! {

/// The selectable alarm sounds.
#[derive(Clone, Copy, Debug, PartialEq, Eq, Structural)]
pub enum SoundKind {
    /// Classic two-tone "wee-woo" emergency siren.
    Siren,
    /// Fast, piercing on/off beeps.
    Beep,
    /// A pitch that ramps upward and resets, urgent and hard to sleep through.
    Chirp,
}

impl Default for SoundKind {
    /// The siren.
    fn default() -> (r: SoundKind)
        ensures
            r == SoundKind::Siren,
    {
        SoundKind::Siren
    }
}

/// The sound that a lower-case name selects.
pub open spec fn sound_named(name: Seq<char>) -> Option<SoundKind> {
    if name == "siren"@ {
        Some(SoundKind::Siren)
    } else if name == "beep"@ {
        Some(SoundKind::Beep)
    } else if name == "chirp"@ {
        Some(SoundKind::Chirp)
    } else {
        None
    }
}

/// What parsing `s` as a sound name gives: the sound its lower-cased form
/// names, or the message that quotes that lower-cased form.
pub open spec fn parse_sound(s: Seq<char>) -> Result<SoundKind, Seq<char>> {
    match sound_named(lowercase(s)) {
        Some(k) => Ok(k),
        None => Err("unknown sound '"@ + lowercase(s) + "'"@),
    }
}

/// Lower-casing twice is lower-casing once.
pub proof fn lemma_lowercase_idempotent(s: Seq<char>)
    ensures
        lowercase(lowercase(s)) == lowercase(s),
{
    assert forall|i: int| 0 <= i < s.len() implies #[trigger] ascii_lower(ascii_lower(s[i]))
        == ascii_lower(s[i]) by {
        let c = s[i];
        if 'A' <= c && c <= 'Z' {
            assert(((c as int) + 32) as char as int == (c as int) + 32);
        }
    }
    assert(lowercase(lowercase(s)) =~= lowercase(s));
}

/// Exactly three names are accepted, each for its own sound: a name parses
/// exactly when its lower-cased form is `siren`, `beep` or `chirp`, and then
/// as that sound; anything else is rejected with a message quoting the
/// lower-cased name.
pub proof fn lemma_sound_names(s: Seq<char>)
    ensures
        parse_sound(s) is Ok <==> (lowercase(s) == "siren"@ || lowercase(s) == "beep"@
            || lowercase(s) == "chirp"@),
        parse_sound(s) == Ok::<SoundKind, Seq<char>>(SoundKind::Siren) <==> lowercase(s)
            == "siren"@,
        parse_sound(s) == Ok::<SoundKind, Seq<char>>(SoundKind::Beep) <==> lowercase(s)
            == "beep"@,
        parse_sound(s) == Ok::<SoundKind, Seq<char>>(SoundKind::Chirp) <==> lowercase(s)
            == "chirp"@,
        parse_sound(s) is Err ==> parse_sound(s) == Err::<SoundKind, Seq<char>>(
            "unknown sound '"@ + lowercase(s) + "'"@,
        ),
{
    reveal_strlit("siren");
    reveal_strlit("beep");
    reveal_strlit("chirp");
    assert("siren"@.len() == 5 && "beep"@.len() == 4 && "chirp"@.len() == 5);
    assert("siren"@[0] != "chirp"@[0]);
    assert("siren"@ != "beep"@ && "beep"@ != "chirp"@ && "siren"@ != "chirp"@);
}

/// Sound names are read without regard to ASCII case: a name and its
/// lower-cased form parse alike.
pub proof fn lemma_parse_sound_case_insensitive(s: Seq<char>)
    ensures
        parse_sound(lowercase(s)) == parse_sound(s),
{
    lemma_lowercase_idempotent(s);
}

impl SoundKind {
    /// Parses a sound name, ignoring ASCII case: "siren", "beep" or "chirp"
    /// in any mix of case select that sound; anything else is rejected with
    /// `unknown sound '<name in lower case>'`.
    pub fn from_str(s: &str) -> (r: Result<SoundKind, String>)
        ensures
            r is Ok <==> parse_sound(s@) is Ok,
            r matches Ok(k) ==> parse_sound(s@) == Ok::<SoundKind, Seq<char>>(k),
            r matches Err(e) ==> parse_sound(s@) == Err::<SoundKind, Seq<char>>(e@),
            r is Ok <==> (lowercase(s@) == "siren"@ || lowercase(s@) == "beep"@ || lowercase(s@)
                == "chirp"@),
            r == Ok::<SoundKind, String>(SoundKind::Siren) <==> lowercase(s@) == "siren"@,
            r == Ok::<SoundKind, String>(SoundKind::Beep) <==> lowercase(s@) == "beep"@,
            r == Ok::<SoundKind, String>(SoundKind::Chirp) <==> lowercase(s@) == "chirp"@,
            r matches Err(e) ==> e@ == "unknown sound '"@ + lowercase(s@) + "'"@,
    {
        proof {
            lemma_sound_names(s@);
        }
        let lowered = to_ascii_lowercase(s);
        if text_eq(lowered.as_str(), "siren") {
            Ok(SoundKind::Siren)
        } else if text_eq(lowered.as_str(), "beep") {
            Ok(SoundKind::Beep)
        } else if text_eq(lowered.as_str(), "chirp") {
            Ok(SoundKind::Chirp)
        } else {
            let mut e = String::from_str("unknown sound '");
            e.append(lowered.as_str());
            e.append("'");
            Err(e)
        }
    }
}

} // verus!

//! The bouncer decides whether a presented secret lets its holder in, and
//! words the announcement of that decision.

use vstd::prelude::*;
use crate::models::credential::Credential;
use crate::text::str_eq;

verus! {

/// The kind of secret presented at the reader.
#[allow(non_camel_case_types)]
#[derive(Debug, Clone, Copy, PartialEq, Eq, Structural)]
pub enum Variety {
    RFID,
    PIN,
}

/// The name under which credentials of this kind are stored, and which
/// announcements use.
pub open spec fn variety_name(variety: Variety) -> Seq<char> {
    match variety {
        Variety::RFID => "RFID"@,
        Variety::PIN => "PIN"@,
    }
}

impl Variety {
    /// The name of this kind of secret.
    pub fn as_str(&self) -> (name: &'static str)
        ensures
            name@ == variety_name(*self),
    {
        match self {
            Variety::RFID => "RFID",
            Variety::PIN => "PIN",
        }
    }
}

/// Whether `credential` is a stored credential of kind `variety` with value
/// `value`: the only thing that admits the holder.
pub open spec fn admits(variety: Variety, value: Seq<char>, credential: Option<&Credential>) -> bool {
    &&& credential is Some
    &&& credential->0.variety@ == variety_name(variety)
    &&& credential->0.value@ == value
}

/// The announcement of the bouncer's decision.
pub open spec fn announcement_text(
    variety: Variety,
    value: Seq<char>,
    credential: Option<&Credential>,
) -> Seq<char> {
    if admits(variety, value, credential) {
        "Bouncer approved "@ + variety_name(variety) + " "@ + credential->0.name@ + "."@
    } else {
        "Bouncer denied "@ + variety_name(variety) + " "@ + value + "."@
    }
}

/// A credential admits its holder exactly when it is stored for the
/// presented kind of secret and holds the presented value; for badges and
/// PINs alike, nothing else is asked of it. Without a credential no one is
/// admitted.
pub proof fn lemma_admitted_exactly_on_match(variety: Variety, value: Seq<char>, credential: &Credential)
    ensures
        admits(variety, value, Some(credential))
            <==> (credential.variety@ == variety_name(variety) && credential.value@ == value),
        !admits(variety, value, None),
{
}

/// Badges and PINs are stored under the names `RFID` and `PIN`, and a
/// credential of one kind never stands for the other.
pub proof fn lemma_variety_names()
    ensures
        variety_name(Variety::RFID) == "RFID"@,
        variety_name(Variety::PIN) == "PIN"@,
        variety_name(Variety::RFID) != variety_name(Variety::PIN),
{
    reveal_strlit("RFID");
    reveal_strlit("PIN");
    assert("RFID"@.len() != "PIN"@.len());
}

/// An announcement begins with `Bouncer approved ` exactly when the holder
/// is admitted, and with `Bouncer denied ` exactly when not, whatever the
/// kind of secret. An approval names the credential,
/// a denial the presented value, and both end with a full stop.
pub proof fn lemma_announcement_tells_verdict(variety: Variety, value: Seq<char>, credential: Option<&Credential>)
    ensures
        "Bouncer approved "@.is_prefix_of(announcement_text(variety, value, credential))
            <==> admits(variety, value, credential),
        "Bouncer denied "@.is_prefix_of(announcement_text(variety, value, credential))
            <==> !admits(variety, value, credential),
        admits(variety, value, credential) ==> announcement_text(variety, value, credential)
            == "Bouncer approved "@ + variety_name(variety) + " "@ + credential->0.name@ + "."@,
        !admits(variety, value, credential) ==> announcement_text(variety, value, credential)
            == "Bouncer denied "@ + variety_name(variety) + " "@ + value + "."@,
{
    reveal_strlit("Bouncer approved ");
    reveal_strlit("Bouncer denied ");
    let approved = "Bouncer approved "@;
    let denied = "Bouncer denied "@;
    let text = announcement_text(variety, value, credential);
    if admits(variety, value, credential) {
        let rest = variety_name(variety) + " "@ + credential->0.name@ + "."@;
        assert(text == approved + rest);
        assert(approved =~= text.subrange(0, approved.len() as int));
        assert(text[8] == 'a');
        assert(denied[8] == 'd');
    } else {
        let rest = variety_name(variety) + " "@ + value + "."@;
        assert(text == denied + rest);
        assert(denied =~= text.subrange(0, denied.len() as int));
        assert(text[8] == 'd');
        assert(approved[8] == 'a');
    }
}

/// The bouncer's decision on one presented secret.
pub struct Verdict {
    pub approved: bool,
    pub announcement: String,
}

/// Decides on presented secrets against the credential found for them.
pub struct Bouncer {}

impl Bouncer {
    /// A bouncer.
    pub fn new() -> (bouncer: Bouncer) {
        Bouncer {}
    }

    /// Decides whether `value`, presented as a secret of kind `variety`, is
    /// accepted, given `credential`, the stored credential found for that
    /// kind and value (`None` when the store holds none). The holder is
    /// admitted exactly when that credential has this kind and this value;
    /// the announcement names the credential when admitted, and the
    /// presented value when not.
    pub fn is_authorized(&self, variety: Variety, value: &str, credential: Option<&Credential>) -> (verdict: Verdict)
        ensures
            verdict.approved == admits(variety, value@, credential),
            verdict.announcement@ == announcement_text(variety, value@, credential),
            verdict.approved <==> (credential is Some && credential->0.variety@ == variety_name(variety)
                && credential->0.value@ == value@),
            "Bouncer approved "@.is_prefix_of(verdict.announcement@) <==> verdict.approved,
            "Bouncer denied "@.is_prefix_of(verdict.announcement@) <==> !verdict.approved,
    {
        proof {
            lemma_announcement_tells_verdict(variety, value@, credential);
        }
        let approved = match credential {
            Some(c) => str_eq(c.variety.as_str(), variety.as_str()) && str_eq(c.value.as_str(), value),
            None => false,
        };
        if approved {
            let c = credential.unwrap();
            let mut announcement = String::from_str("Bouncer approved ");
            announcement.append(variety.as_str());
            announcement.append(" ");
            announcement.append(c.name.as_str());
            announcement.append(".");
            Verdict { approved, announcement }
        } else {
            let mut announcement = String::from_str("Bouncer denied ");
            announcement.append(variety.as_str());
            announcement.append(" ");
            announcement.append(value);
            announcement.append(".");
            Verdict { approved, announcement }
        }
    }
}

} // verus!

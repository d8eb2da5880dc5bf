//! The payload of a token: the claims as JSON text, written member by member
//! and read back member by member.

use vstd::prelude::*;
use vstd::string::StringExecFns;
use crate::database::model::{opt_text, Permission};
use crate::server::jwt::{opt_claims_view, Claims, ClaimsView};
use crate::server::ser_local_peer_uuid::{deserialize, serialize, wire_text, wire_uuid};
use crate::server::user::{LocalPeer, LocalPeerView};

verus! {

/// The JSON string literal that `serde_json::to_string` writes for a text.
pub uninterp spec fn json_quoted(text: Seq<char>) -> Seq<char>;

/// The unsigned number that `serde_json` finds in a document at a JSON pointer,
/// if one stands there. The name stands for three calls in a row, each a
/// function of what it is given: `serde_json::from_str` reads the document,
/// `Value::pointer` goes to the place, `Value::as_u64` reads the number.
pub uninterp spec fn json_number(doc: Seq<char>, pointer: Seq<char>) -> Option<u64>;

/// The string that `serde_json` finds in a document at a JSON pointer, if one
/// stands there. The name stands for three calls in a row, each a function of
/// what it is given: `serde_json::from_str` reads the document,
/// `Value::pointer` goes to the place, `Value::as_str` reads the string.
pub uninterp spec fn json_string(doc: Seq<char>, pointer: Seq<char>) -> Option<Seq<char>>;

/// `serde_json::to_string` on a string. Trusted: a literal is always written,
/// since writing a string into memory cannot fail, and it depends on the text
/// alone.
#[verifier::external_body]
fn json_quote(text: &str) -> (r: Option<String>)
    ensures
        opt_text(r) == Some(json_quoted(text@)),
{
    serde_json::to_string(text).ok()
}

/// `serde_json::from_str`, `Value::pointer` and `Value::as_u64`. Trusted: what
/// is found depends on document and pointer alone.
#[verifier::external_body]
fn json_number_at(doc: &str, pointer: &str) -> (r: Option<u64>)
    ensures
        r == json_number(doc@, pointer@),
{
    serde_json::from_str::<serde_json::Value>(doc).ok()?.pointer(pointer)?.as_u64()
}

/// `serde_json::from_str`, `Value::pointer` and `Value::as_str`. Trusted: what
/// is found depends on document and pointer alone.
#[verifier::external_body]
fn json_string_at(doc: &str, pointer: &str) -> (r: Option<String>)
    ensures
        opt_text(r) == json_string(doc@, pointer@),
{
    serde_json::from_str::<serde_json::Value>(doc).ok()?.pointer(pointer)?.as_str().map(String::from)
}

/// The decimal digit for a number below ten.
pub open spec fn digit(d: nat) -> char {
    if d == 0 {
        '0'
    } else if d == 1 {
        '1'
    } else if d == 2 {
        '2'
    } else if d == 3 {
        '3'
    } else if d == 4 {
        '4'
    } else if d == 5 {
        '5'
    } else if d == 6 {
        '6'
    } else if d == 7 {
        '7'
    } else if d == 8 {
        '8'
    } else {
        '9'
    }
}

/// A number in decimal digits, without leading zeros.
pub open spec fn digits(n: nat) -> Seq<char>
    decreases n,
{
    if n < 10 {
        seq![digit(n)]
    } else {
        digits(n / 10).push(digit(n % 10))
    }
}

/// The decimal digit for a number below ten, as a string.
fn digit_text(d: u64) -> (r: &'static str)
    requires
        d < 10,
    ensures
        r@ == seq![digit(d as nat)],
{
    proof {
        reveal_strlit("0");
        reveal_strlit("1");
        reveal_strlit("2");
        reveal_strlit("3");
        reveal_strlit("4");
        reveal_strlit("5");
        reveal_strlit("6");
        reveal_strlit("7");
        reveal_strlit("8");
        reveal_strlit("9");
    }
    let r = if d == 0 {
        "0"
    } else if d == 1 {
        "1"
    } else if d == 2 {
        "2"
    } else if d == 3 {
        "3"
    } else if d == 4 {
        "4"
    } else if d == 5 {
        "5"
    } else if d == 6 {
        "6"
    } else if d == 7 {
        "7"
    } else if d == 8 {
        "8"
    } else {
        "9"
    };
    r
}

/// A number in decimal digits, without leading zeros.
pub fn decimal(n: u64) -> (r: String)
    ensures
        r@ == digits(n as nat),
    decreases n,
{
    if n < 10 {
        String::from_str(digit_text(n))
    } else {
        let mut s = decimal(n / 10);
        s.append(digit_text(n % 10));
        s
    }
}

/// What stands in a payload about the device of a token.
#[derive(Clone, Debug, PartialEq, Eq)]
pub enum PeerClaim {
    /// Nothing: the token is one of the administration panel.
    Absent,
    /// The device a user's token is bound to.
    Bound(LocalPeer),
    /// Something that is no device identity.
    Malformed,
}

/// What a statement about the device holds.
pub enum PeerClaimView {
    Absent,
    Bound(LocalPeerView),
    Malformed,
}

impl View for PeerClaim {
    type V = PeerClaimView;

    open spec fn view(&self) -> PeerClaimView {
        match self {
            PeerClaim::Absent => PeerClaimView::Absent,
            PeerClaim::Bound(lp) => PeerClaimView::Bound(lp@),
            PeerClaim::Malformed => PeerClaimView::Malformed,
        }
    }
}

/// The statement about the device that a name and an identifier make, the
/// identifier already read from its travelling form.
pub open spec fn peer_claim_of(id: Option<Seq<char>>, uuid: Option<Option<u128>>) -> PeerClaimView {
    match (id, uuid) {
        (None, None) => PeerClaimView::Absent,
        (Some(name), Some(Some(value))) => PeerClaimView::Bound(
            LocalPeerView { id: name, uuid: value },
        ),
        _ => PeerClaimView::Malformed,
    }
}

/// The statement about the device that a name and an identifier make: absent
/// where both are missing, a device where both are there and the identifier
/// could be read, malformed otherwise.
pub fn peer_claim(id: Option<String>, uuid: Option<Option<u128>>) -> (r: PeerClaim)
    ensures
        r@ == peer_claim_of(opt_text(id), uuid),
{
    match (id, uuid) {
        (None, None) => PeerClaim::Absent,
        (Some(name), Some(Some(value))) => PeerClaim::Bound(LocalPeer { id: name, uuid: value }),
        _ => PeerClaim::Malformed,
    }
}

/// The claims that the parts of a payload make, if they make any: every part
/// must be there, the role must be one of the two, and only a user may be
/// bound to a device.
pub open spec fn assembled(
    exp: Option<u64>,
    iat: Option<u64>,
    iss: Option<Seq<char>>,
    nbf: Option<u64>,
    perm: Option<Seq<char>>,
    peer: PeerClaimView,
) -> Option<ClaimsView> {
    if exp is Some && iat is Some && iss is Some && nbf is Some && perm is Some
        && Permission::from_word_spec(perm->0) is Some && !(peer is Malformed) && (peer is Bound
        ==> Permission::from_word_spec(perm->0) == Some(Permission::User)) {
        Some(
            ClaimsView {
                exp: exp->0,
                iat: iat->0,
                iss: iss->0,
                nbf: nbf->0,
                local_peer: match peer {
                    PeerClaimView::Bound(lp) => Some(lp),
                    _ => None,
                },
                perm: Permission::from_word_spec(perm->0)->0,
            },
        )
    } else {
        None
    }
}

/// The payload with these parts, the strings already written as JSON literals.
pub open spec fn payload_text(
    exp: u64,
    iat: u64,
    iss_quoted: Seq<char>,
    nbf: u64,
    peer_quoted: Option<(Seq<char>, Seq<char>)>,
    perm: Permission,
) -> Seq<char> {
    "{\"exp\":"@ + digits(exp as nat) + ",\"iat\":"@ + digits(iat as nat) + ",\"iss\":"@
        + iss_quoted + match peer_quoted {
        Some((id, uuid)) => ",\"local_peer\":{\"id\":"@ + id + ",\"uuid\":"@ + uuid + "}"@,
        None => Seq::<char>::empty(),
    } + ",\"nbf\":"@ + digits(nbf as nat) + ",\"perm\":\""@ + perm.word_spec() + "\"}"@
}

/// Writes the payload with these parts, the members in the order of their
/// names. The strings come as JSON literals, quotes included; the device,
/// where there is one, as its name and its identifier in travelling form.
pub fn payload(
    exp: u64,
    iat: u64,
    iss_quoted: &str,
    nbf: u64,
    peer_quoted: Option<(&str, &str)>,
    perm: Permission,
) -> (r: String)
    ensures
        r@ == payload_text(
            exp,
            iat,
            iss_quoted@,
            nbf,
            match peer_quoted {
                Some((id, uuid)) => Some((id@, uuid@)),
                None => None,
            },
            perm,
        ),
{
    let mut s = String::from_str("{\"exp\":");
    s.append(decimal(exp).as_str());
    s.append(",\"iat\":");
    s.append(decimal(iat).as_str());
    s.append(",\"iss\":");
    s.append(iss_quoted);
    match peer_quoted {
        Some((id, uuid)) => {
            s.append(",\"local_peer\":{\"id\":");
            s.append(id);
            s.append(",\"uuid\":");
            s.append(uuid);
            s.append("}");
        },
        None => {},
    }
    s.append(",\"nbf\":");
    s.append(decimal(nbf).as_str());
    s.append(",\"perm\":\"");
    s.append(perm.word());
    s.append("\"}");
    s
}

/// The payload that carries these claims.
pub open spec fn payload_of(c: ClaimsView) -> Seq<char> {
    payload_text(
        c.exp,
        c.iat,
        json_quoted(c.iss),
        c.nbf,
        match c.local_peer {
            Some(lp) => Some((json_quoted(lp.id), json_quoted(wire_text(lp.uuid)))),
            None => None,
        },
        c.perm,
    )
}

/// The claims that a payload carries, if it carries any.
pub open spec fn payload_claims(doc: Seq<char>) -> Option<ClaimsView> {
    assembled(
        json_number(doc, "/exp"@),
        json_number(doc, "/iat"@),
        json_string(doc, "/iss"@),
        json_number(doc, "/nbf"@),
        json_string(doc, "/perm"@),
        peer_claim_of(
            json_string(doc, "/local_peer/id"@),
            match json_string(doc, "/local_peer/uuid"@) {
                Some(text) => Some(wire_uuid(text)),
                None => None,
            },
        ),
    )
}

impl Claims {
    /// The claims that the parts of a payload make, if they make any: every
    /// part must be there, the role must be `Admin` or `User`, and only a user
    /// may be bound to a device.
    pub fn assemble(
        exp: Option<u64>,
        iat: Option<u64>,
        iss: Option<String>,
        nbf: Option<u64>,
        perm: Option<String>,
        peer: PeerClaim,
    ) -> (r: Option<Claims>)
        ensures
            opt_claims_view(r) == assembled(exp, iat, opt_text(iss), nbf, opt_text(perm), peer@),
    {
        let role = match &perm {
            Some(word) => Permission::from_word(word),
            None => None,
        };
        match (exp, iat, iss, nbf, role) {
            (Some(e), Some(i), Some(name), Some(n), Some(p)) => {
                let bound = match peer {
                    PeerClaim::Malformed => {
                        return None;
                    },
                    PeerClaim::Absent => None,
                    PeerClaim::Bound(lp) => {
                        if p != Permission::User {
                            return None;
                        }
                        Some(lp)
                    },
                };
                Some(Claims { exp: e, iat: i, iss: name, nbf: n, local_peer: bound, perm: p })
            },
            _ => None,
        }
    }

    /// The payload that carries these claims.
    pub fn to_payload(&self) -> (r: String)
        ensures
            r@ == payload_of(self@),
    {
        let iss = json_quote(self.iss.as_str()).unwrap();
        match &self.local_peer {
            None => payload(self.exp, self.iat, iss.as_str(), self.nbf, None, self.perm),
            Some(lp) => {
                let wire = serialize(lp.uuid);
                let id = json_quote(lp.id.as_str()).unwrap();
                let uuid = json_quote(wire.as_str()).unwrap();
                payload(
                    self.exp,
                    self.iat,
                    iss.as_str(),
                    self.nbf,
                    Some((id.as_str(), uuid.as_str())),
                    self.perm,
                )
            },
        }
    }

    /// The claims that a payload carries, if it carries any.
    pub fn from_payload(doc: &str) -> (r: Option<Claims>)
        ensures
            opt_claims_view(r) == payload_claims(doc@),
    {
        let uuid = match json_string_at(doc, "/local_peer/uuid") {
            Some(text) => Some(deserialize(text.as_str())),
            None => None,
        };
        let peer = peer_claim(json_string_at(doc, "/local_peer/id"), uuid);
        Claims::assemble(
            json_number_at(doc, "/exp"),
            json_number_at(doc, "/iat"),
            json_string_at(doc, "/iss"),
            json_number_at(doc, "/nbf"),
            json_string_at(doc, "/perm"),
            peer,
        )
    }
}

} // verus!

use vstd::prelude::*;
use vstd::string::StringExecFns;
use vstd::string::StringExecFnsIsAscii;
use vstd::utf8::is_ascii_chars;

use crate::error::MailError;

verus! {

/// An electronic mail address, split at the separating `@`.
#[derive(Clone, Debug, PartialEq, Eq)]
pub struct Email {
    pub local_part: String,
    pub domain: String,
}

/// A mailbox as it appears in an address header: an address together with an
/// optional display name. Envelope derivation reads only the address.
#[derive(Clone, Debug, PartialEq, Eq)]
pub struct Mailbox {
    pub display_name: Option<String>,
    pub email: Email,
}

/// An address in the wire form used by the MAIL and RCPT commands, together
/// with the flag saying whether the session must offer the extension for
/// internationalized addresses to carry it.
#[derive(Clone, Debug, PartialEq, Eq)]
pub struct MailAddress {
    pub address: String,
    pub needs_smtputf8: bool,
}

/// An address must be transmitted through the internationalized-address
/// extension exactly when its local part falls outside ASCII. A domain never
/// forces the extension, because a domain can be rewritten in ASCII.
pub open spec fn is_internationalized(email: Email) -> bool {
    !is_ascii_chars(email.local_part@)
}

/// The ASCII rewriting of a domain under the domain-to-ASCII algorithm of
/// UTS 46 (Punycode for the labels that need it). Only the trusted wrapper
/// around the outside implementation gives this name a value.
pub uninterp spec fn puny_of(domain: Seq<char>) -> Seq<char>;

/// The characters of the wire form of an address: the local part and the
/// domain joined by `@`, with the domain rewritten in ASCII unless the local
/// part already forces the internationalized extension.
pub open spec fn smtp_address_chars(email: Email) -> Seq<char> {
    if is_internationalized(email) {
        email.local_part@ + seq!['@'] + email.domain@
    } else {
        email.local_part@ + seq!['@'] + puny_of(email.domain@)
    }
}

/// True when `a` is the wire address derived from `email`.
pub open spec fn address_derived_from(a: MailAddress, email: Email) -> bool {
    &&& a.address@ == smtp_address_chars(email)
    &&& a.needs_smtputf8 == is_internationalized(email)
}

#[verifier::external_type_specification]
#[verifier::external_body]
pub struct ExIdnaErrors(idna::Errors);

/// Relies on `idna::domain_to_ascii`: the UTS 46 domain-to-ASCII algorithm,
/// whose result is a function of the domain alone and, on success, ASCII.
#[verifier::external_body]
fn puny_encode_domain(domain: &str) -> (r: Result<String, idna::Errors>)
    ensures
        r matches Ok(encoded) ==> encoded@ == puny_of(domain@),
        r matches Ok(encoded) ==> is_ascii_chars(encoded@),
{
    idna::domain_to_ascii(domain)
}

impl Email {
    /// Whether this address needs the internationalized-address extension.
    pub fn check_if_internationalized(&self) -> (r: bool)
        ensures
            r == is_internationalized(*self),
    {
        !self.local_part.is_ascii()
    }
}

impl MailAddress {
    /// Wraps an already wire-ready address string without checking it.
    pub fn new_unchecked(address: String, needs_smtputf8: bool) -> (r: Self)
        ensures
            r == (MailAddress { address, needs_smtputf8 }),
    {
        MailAddress { address, needs_smtputf8 }
    }

    /// The wire form of the address.
    pub fn as_str(&self) -> (r: &str)
        ensures
            r@ == self.address@,
    {
        self.address.as_str()
    }

    /// Whether the session must offer the internationalized-address
    /// extension to carry this address.
    pub fn needs_smtputf8(&self) -> (r: bool)
        ensures
            r == self.needs_smtputf8,
    {
        self.needs_smtputf8
    }
}

/// Joins a local part and an already wire-ready domain into one address.
pub fn mail_address_from_parts(local_part: &String, encoded_domain: &String, needs_smtputf8: bool) -> (r: MailAddress)
    ensures
        r.address@ == local_part@ + seq!['@'] + encoded_domain@,
        r.needs_smtputf8 == needs_smtputf8,
{
    let mut address = local_part.clone();
    address.append("@");
    address.append(encoded_domain.as_str());
    proof {
        reveal_strlit("@");
        assert(address@ =~= local_part@ + seq!['@'] + encoded_domain@);
    }
    MailAddress { address, needs_smtputf8 }
}

/// Turns a header mailbox into the wire address the envelope carries.
///
/// An internationalized local part keeps the whole address as given and sets
/// the extension flag; otherwise the domain is rewritten in ASCII, which the
/// outside domain-to-ASCII algorithm may refuse.
pub fn mailaddress_from_mailbox(mailbox: &Mailbox) -> (r: Result<MailAddress, MailError>)
    ensures
        r matches Ok(a) ==> address_derived_from(a, mailbox.email),
        is_internationalized(mailbox.email) ==> r is Ok,
        r is Err ==> r == Err::<MailAddress, MailError>(MailError::Encoding),
{
    let needs_smtputf8 = mailbox.email.check_if_internationalized();
    if needs_smtputf8 {
        Ok(mail_address_from_parts(&mailbox.email.local_part, &mailbox.email.domain, true))
    } else {
        match puny_encode_domain(mailbox.email.domain.as_str()) {
            Ok(encoded) => Ok(mail_address_from_parts(&mailbox.email.local_part, &encoded, false)),
            Err(_) => Err(MailError::Encoding),
        }
    }
}

} // verus!

//! Builders for the request body of the MailChannels transactional send API,
//! used by the contact-form worker to assemble a notification email. The
//! types mirror the API's JSON shape; serialization happens outside the
//! library.

use vstd::prelude::*;
use vstd::string::*;

verus! {

/// One content part of the email: a MIME type and its text.
#[derive(Clone, Debug, PartialEq, Eq)]
pub struct Content {
    pub type_: String,
    pub value: String,
}

impl Content {
    pub fn new(type_: String, value: String) -> (r: Content)
        ensures
            r.type_@ == type_@,
            r.value@ == value@,
    {
        Content { type_, value }
    }
}

/// An email address with a display name.
#[derive(Clone, Debug, PartialEq, Eq)]
pub struct Contact {
    pub email: String,
    pub name: String,
}

impl Contact {
    pub fn new(email: String, name: String) -> (r: Contact)
        ensures
            r.email@ == email@,
            r.name@ == name@,
    {
        Contact { email, name }
    }
}

/// The DKIM signing parameters sent along with a personalization.
#[derive(Clone, Debug, PartialEq, Eq)]
pub struct Dkim {
    pub domain: String,
    pub selector: String,
    pub private_key: String,
}

impl Dkim {
    pub fn new(domain: String, selector: String, private_key: String) -> (r: Dkim)
        ensures
            r.domain@ == domain@,
            r.selector@ == selector@,
            r.private_key@ == private_key@,
    {
        Dkim { domain, selector, private_key }
    }
}

/// One personalization: the recipients, with the DKIM parameters flattened in.
#[derive(Clone, Debug, PartialEq, Eq)]
pub struct Personalization {
    pub to: Vec<Contact>,
    pub dkim: Dkim,
}

impl Personalization {
    /// A personalization with no recipients yet.
    pub fn new(dkim: Dkim) -> (r: Personalization)
        ensures
            r.to@ =~= Seq::<Contact>::empty(),
            r.dkim == dkim,
    {
        Personalization { to: Vec::new(), dkim }
    }

    /// Adds one recipient, builder style.
    pub fn to(self, contact: Contact) -> (r: Personalization)
        ensures
            r.to@ == self.to@.push(contact),
            r.dkim == self.dkim,
    {
        let mut p = self;
        p.to.push(contact);
        p
    }
}

/// The full request body: personalizations, sender, subject and content
/// parts.
#[derive(Clone, Debug, PartialEq, Eq)]
pub struct Body {
    pub personalizations: Vec<Personalization>,
    pub from: Contact,
    pub subject: String,
    pub content: Vec<Content>,
}

impl Body {
    /// A body with the given sender and subject, and no personalizations or
    /// content parts yet.
    pub fn new(from: Contact, subject: String) -> (r: Body)
        ensures
            r.personalizations@ =~= Seq::<Personalization>::empty(),
            r.from == from,
            r.subject@ == subject@,
            r.content@ =~= Seq::<Content>::empty(),
    {
        Body { personalizations: Vec::new(), from, subject, content: Vec::new() }
    }

    /// Adds one personalization, builder style.
    pub fn personalization(self, personalization: Personalization) -> (r: Body)
        ensures
            r.personalizations@ == self.personalizations@.push(personalization),
            r.from == self.from,
            r.subject == self.subject,
            r.content == self.content,
    {
        let mut b = self;
        b.personalizations.push(personalization);
        b
    }

    /// Adds one content part, builder style.
    pub fn content(self, content: Content) -> (r: Body)
        ensures
            r.content@ == self.content@.push(content),
            r.from == self.from,
            r.subject == self.subject,
            r.personalizations == self.personalizations,
    {
        let mut b = self;
        b.content.push(content);
        b
    }
}

/// The body of the contact-form email: the four form fields laid out one per
/// line.
pub open spec fn spec_contact_message(
    name: Seq<char>,
    email: Seq<char>,
    affiliation: Seq<char>,
    message: Seq<char>,
) -> Seq<char> {
    "\nname: "@ + name + "\nemail: "@ + email + "\naffiliation: "@ + affiliation + "\nmessage: "@
        + message + "\n    "@
}

/// Assembles the notification email for one contact-form submission: a
/// plain-text content part holding the form fields, sent from the given
/// sender to the given recipient, DKIM-signed for the sender's domain.
pub fn contact_body(
    name: String,
    email: String,
    affiliation: String,
    message: String,
    from: Contact,
    recipient: Contact,
    subject: String,
    dkim: Dkim,
) -> (r: Body)
    ensures
        r.from == from,
        r.subject@ == subject@,
        r.personalizations@.len() == 1,
        r.personalizations@[0].dkim == dkim,
        r.personalizations@[0].to@ == seq![recipient],
        r.content@.len() == 1,
        r.content@[0].type_@ == "text/plain"@,
        r.content@[0].value@ == spec_contact_message(name@, email@, affiliation@, message@),
{
    let mut text = "\nname: ".to_owned();
    text.append(name.as_str());
    text.append("\nemail: ");
    text.append(email.as_str());
    text.append("\naffiliation: ");
    text.append(affiliation.as_str());
    text.append("\nmessage: ");
    text.append(message.as_str());
    text.append("\n    ");
    let content = Content::new("text/plain".to_owned(), text);
    let personalization = Personalization::new(dkim).to(recipient);
    let ghost ps = personalization;
    let b = Body::new(from, subject).personalization(personalization).content(content);
    proof {
        assert(b.personalizations@ =~= seq![ps]);
        assert(b.content@[0].value@ == spec_contact_message(name@, email@, affiliation@, message@));
        assert(ps.to@ =~= seq![recipient]);
    }
    b
}

} // verus!

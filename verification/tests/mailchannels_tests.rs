use pingr::mailchannels::{contact_body, Body, Contact, Content, Dkim, Personalization};

#[test]
fn builders_accumulate() {
    let dkim = Dkim::new(
        "example.net".to_string(),
        "selector".to_string(),
        "key".to_string(),
    );
    let personalization = Personalization::new(dkim)
        .to(Contact::new("a@example.net".to_string(), "A".to_string()))
        .to(Contact::new("b@example.net".to_string(), "B".to_string()));
    assert_eq!(personalization.to.len(), 2);
    assert_eq!(personalization.to[0].email, "a@example.net");
    assert_eq!(personalization.to[1].name, "B");

    let body = Body::new(
        Contact::new("from@example.net".to_string(), "Sender".to_string()),
        "Subject line".to_string(),
    )
    .personalization(personalization)
    .content(Content::new("text/plain".to_string(), "hello".to_string()))
    .content(Content::new("text/html".to_string(), "<p>hello</p>".to_string()));
    assert_eq!(body.subject, "Subject line");
    assert_eq!(body.personalizations.len(), 1);
    assert_eq!(body.content.len(), 2);
    assert_eq!(body.content[1].type_, "text/html");
}

#[test]
fn contact_body_lays_out_form_fields() {
    let body = contact_body(
        "Jo".to_string(),
        "jo@example.net".to_string(),
        "Example Org".to_string(),
        "Hello there".to_string(),
        Contact::new("no-reply@example.net".to_string(), "Jo".to_string()),
        Contact::new("contact@example.net".to_string(), "Owner".to_string()),
        "Contact request".to_string(),
        Dkim::new("example.net".to_string(), "mailchannels".to_string(), "key".to_string()),
    );
    assert_eq!(body.subject, "Contact request");
    assert_eq!(body.from.email, "no-reply@example.net");
    assert_eq!(body.personalizations.len(), 1);
    assert_eq!(body.personalizations[0].to.len(), 1);
    assert_eq!(body.personalizations[0].to[0].email, "contact@example.net");
    assert_eq!(body.personalizations[0].dkim.selector, "mailchannels");
    assert_eq!(body.content.len(), 1);
    assert_eq!(body.content[0].type_, "text/plain");
    assert_eq!(
        body.content[0].value,
        "\nname: Jo\nemail: jo@example.net\naffiliation: Example Org\nmessage: Hello there\n    "
    );
}

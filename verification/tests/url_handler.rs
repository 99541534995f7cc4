use icy_ui::url_handler::{
    descriptor_file_url, descriptor_string, forward_urls, parse_urls_from_event,
    register_url_handler, AppleEvent, Descriptor, EventHandler, RegistrationError, UrlHandler,
    CORE_EVENT_CLASS, GET_URL, INTERNET_EVENT_CLASS, OPEN_DOCUMENTS,
};

fn text(value: &str) -> Descriptor {
    Descriptor { string_value: Some(value.to_string()), file_url: None, items: vec![] }
}

fn file(url: &str) -> Descriptor {
    Descriptor {
        string_value: Some("unused".to_string()),
        file_url: Some(Some(url.to_string())),
        items: vec![],
    }
}

fn list(items: Vec<Option<Descriptor>>) -> Descriptor {
    Descriptor { string_value: None, file_url: None, items }
}

fn event(event_class: u32, event_id: u32, direct_object: Option<Descriptor>) -> Option<AppleEvent> {
    Some(AppleEvent { event_class, event_id, direct_object })
}

#[test]
fn urls_arrive_in_order() {
    let (handler, sender) = UrlHandler::install(false);
    assert_eq!(handler.try_recv(), None);
    sender.send("myapp://one".to_string()).unwrap();
    sender.send("myapp://two".to_string()).unwrap();
    assert_eq!(handler.try_recv(), Some("myapp://one".to_string()));
    assert_eq!(handler.receiver().try_recv().ok(), Some("myapp://two".to_string()));
    sender.send("myapp://three".to_string()).unwrap();
    let receiver = handler.into_receiver();
    assert_eq!(receiver.try_recv().ok(), Some("myapp://three".to_string()));
    assert!(receiver.try_recv().is_err());
}

#[test]
fn a_closed_channel_yields_nothing() {
    let (handler, sender) = UrlHandler::install(false);
    drop(sender);
    assert_eq!(handler.try_recv(), None);
}

#[test]
fn url_events_carry_one_url() {
    let e = event(INTERNET_EVENT_CLASS, GET_URL, Some(text("myapp://action")));
    assert_eq!(parse_urls_from_event(&e), vec!["myapp://action".to_string()]);
    let e = event(INTERNET_EVENT_CLASS, GET_URL, Some(list(vec![Some(text("a"))])));
    assert!(parse_urls_from_event(&e).is_empty());
    assert!(parse_urls_from_event(&event(INTERNET_EVENT_CLASS, GET_URL, None)).is_empty());
}

#[test]
fn document_events_carry_their_files_in_order() {
    let unreadable = Descriptor { string_value: None, file_url: Some(None), items: vec![] };
    let e = event(
        CORE_EVENT_CLASS,
        OPEN_DOCUMENTS,
        Some(list(vec![
            Some(file("file:///a.txt")),
            None,
            Some(text("plain")),
            Some(unreadable),
            Some(file("file:///b.txt")),
        ])),
    );
    assert_eq!(
        parse_urls_from_event(&e),
        vec!["file:///a.txt".to_string(), "plain".to_string(), "file:///b.txt".to_string()]
    );
}

#[test]
fn other_events_carry_nothing() {
    assert!(parse_urls_from_event(&None).is_empty());
    let e = event(CORE_EVENT_CLASS, GET_URL, Some(text("myapp://action")));
    assert!(parse_urls_from_event(&e).is_empty());
    let e = event(INTERNET_EVENT_CLASS, OPEN_DOCUMENTS, Some(list(vec![Some(text("a"))])));
    assert!(parse_urls_from_event(&e).is_empty());
}

#[test]
fn urls_are_handed_on_once_a_handler_is_installed() {
    let e = event(INTERNET_EVENT_CLASS, GET_URL, Some(text("myapp://action")));
    assert!(forward_urls(false, &e).is_empty());
    assert_eq!(forward_urls(true, &e), vec!["myapp://action".to_string()]);
}

#[test]
fn descriptors_prefer_their_file() {
    assert_eq!(descriptor_string(None), None);
    assert_eq!(descriptor_string(Some(&text("t"))), Some("t".to_string()));
    assert_eq!(descriptor_file_url(&None), None);
    assert_eq!(descriptor_file_url(&Some(text("t"))), Some("t".to_string()));
    assert_eq!(descriptor_file_url(&Some(file("file:///x"))), Some("file:///x".to_string()));
}

#[test]
fn both_handlers_are_registered() {
    assert_eq!(register_url_handler(false, true), Err(RegistrationError::NotMainThread));
    assert_eq!(register_url_handler(false, false), Err(RegistrationError::NotMainThread));
    assert_eq!(register_url_handler(true, false), Err(RegistrationError::NoEventManager));
    let list = register_url_handler(true, true).unwrap();
    assert_eq!(list.len(), 2);
    assert_eq!(list[0].handler, EventHandler::GetUrl);
    assert_eq!(list[0].event_class, 0x4755_524c);
    assert_eq!(list[0].event_id, 0x4755_524c);
    assert_eq!(list[1].handler, EventHandler::OpenDocuments);
    assert_eq!(list[1].event_class, 0x6165_7674);
    assert_eq!(list[1].event_id, 0x6f64_6f63);
}

//! Custom URL schemes and documents opened from Finder, as Apple Events deliver them.
use std::sync::mpsc::{Receiver, Sender};

use vstd::prelude::*;

use crate::channel::{are_ends, is_received, received};
use crate::text::text_of;

verus! {

/// The class of core Apple Events (`aevt`).
pub const CORE_EVENT_CLASS: u32 = 0x6165_7674;

/// The event for opening documents (`odoc`).
pub const OPEN_DOCUMENTS: u32 = 0x6f64_6f63;

/// The class of internet events (`GURL`).
pub const INTERNET_EVENT_CLASS: u32 = 0x4755_524c;

/// The event for getting a URL (`GURL`).
pub const GET_URL: u32 = 0x4755_524c;

/// The keyword of the direct object of an event (`----`).
pub const DIRECT_OBJECT: u32 = 0x2d2d_2d2d;

/// A part of an Apple Event.
#[derive(Debug)]
pub struct Descriptor {
    /// The text of the descriptor, where it has one.
    pub string_value: Option<String>,
    /// The file that the descriptor stands for, where it stands for one: the absolute form of
    /// its URL, where that can be read.
    pub file_url: Option<Option<String>>,
    /// The elements of a list, in order; a missing element is kept as such.
    pub items: Vec<Option<Descriptor>>,
}

/// An Apple Event.
#[derive(Debug)]
pub struct AppleEvent {
    pub event_class: u32,
    pub event_id: u32,
    pub direct_object: Option<Descriptor>,
}

/// Which handler an Apple Event is delivered to.
#[derive(Clone, Copy, Debug, PartialEq, Eq, Structural)]
pub enum EventHandler {
    GetUrl,
    OpenDocuments,
}

/// A handler together with the events that it is registered for.
#[derive(Clone, Copy, Debug, PartialEq, Eq, Structural)]
pub struct Registration {
    pub handler: EventHandler,
    pub event_class: u32,
    pub event_id: u32,
}

/// Why the handlers could not be registered.
#[derive(Clone, Copy, Debug, PartialEq, Eq, Structural)]
pub enum RegistrationError {
    /// Not running on the main thread.
    NotMainThread,
    /// There is no event manager.
    NoEventManager,
}

/// Whether an event carries a URL.
pub open spec fn is_url_event(event_class: u32, event_id: u32) -> bool {
    event_class == INTERNET_EVENT_CLASS && event_id == GET_URL
}

/// Whether an event opens documents.
pub open spec fn is_documents_event(event_class: u32, event_id: u32) -> bool {
    event_class == CORE_EVENT_CLASS && event_id == OPEN_DOCUMENTS
}

/// The URL that an element of a list of documents stands for: that of its file, or else its text.
pub open spec fn file_url_text(d: Option<Descriptor>) -> Option<Seq<char>> {
    match d {
        Some(d) => match d.file_url {
            Some(url) => text_of(url),
            None => text_of(d.string_value),
        },
        None => None,
    }
}

/// The URLs of a list of documents, in order, without the elements that have none.
pub open spec fn document_urls(items: Seq<Option<Descriptor>>) -> Seq<Seq<char>>
    decreases items.len(),
{
    if items.len() == 0 {
        Seq::empty()
    } else {
        let before = document_urls(items.drop_last());
        match file_url_text(items.last()) {
            Some(url) => before.push(url),
            None => before,
        }
    }
}

/// The URLs that an event carries.
pub open spec fn event_urls(event: Option<AppleEvent>) -> Seq<Seq<char>> {
    match event {
        Some(e) => match e.direct_object {
            Some(object) => if is_url_event(e.event_class, e.event_id) {
                match text_of(object.string_value) {
                    Some(url) => seq![url],
                    None => Seq::empty(),
                }
            } else if is_documents_event(e.event_class, e.event_id) {
                document_urls(object.items@)
            } else {
                Seq::empty()
            },
            None => Seq::empty(),
        },
        None => Seq::empty(),
    }
}

/// The texts of a list of strings.
pub open spec fn texts(strings: Seq<String>) -> Seq<Seq<char>> {
    Seq::new(strings.len(), |i: int| strings[i]@)
}

/// Gives the text of a descriptor.
pub fn descriptor_string(descriptor: Option<&Descriptor>) -> (r: Option<String>)
    ensures
        text_of(r) == (match descriptor {
            Some(d) => text_of(d.string_value),
            None => None,
        }),
{
    match descriptor {
        Some(d) => match &d.string_value {
            Some(text) => Some(text.clone()),
            None => None,
        },
        None => None,
    }
}

/// Gives the URL that an element of a list of documents stands for.
pub fn descriptor_file_url(descriptor: &Option<Descriptor>) -> (r: Option<String>)
    ensures
        text_of(r) == file_url_text(*descriptor),
{
    match descriptor {
        Some(d) => match &d.file_url {
            Some(Some(url)) => Some(url.clone()),
            Some(None) => None,
            None => descriptor_string(Some(d)),
        },
        None => None,
    }
}

/// Gives the URLs of an event that carries a URL or opens documents, and none for other events.
pub fn parse_urls_from_event(event: &Option<AppleEvent>) -> (r: Vec<String>)
    ensures
        texts(r@) == event_urls(*event),
{
    let mut urls: Vec<String> = Vec::new();
    if let Some(e) = event {
        let is_url: bool = e.event_class == INTERNET_EVENT_CLASS && e.event_id == GET_URL;
        let is_open_documents: bool = e.event_class == CORE_EVENT_CLASS && e.event_id
            == OPEN_DOCUMENTS;
        if is_url || is_open_documents {
            if let Some(object) = &e.direct_object {
                if is_url {
                    if let Some(url) = descriptor_string(Some(object)) {
                        urls.push(url);
                    }
                } else {
                    let len: usize = object.items.len();
                    let mut i: usize = 0;
                    proof {
                        assert(object.items@.take(0) =~= Seq::empty());
                        assert(texts(urls@) =~= Seq::empty());
                    }
                    while i < len
                        invariant
                            0 <= i <= len,
                            len == object.items@.len(),
                            texts(urls@) == document_urls(object.items@.take(i as int)),
                        decreases len - i,
                    {
                        let ghost before = urls@;
                        let url: Option<String> = descriptor_file_url(&object.items[i]);
                        proof {
                            assert(object.items@.take(i + 1).drop_last() =~= object.items@.take(
                                i as int,
                            ));
                            assert(object.items@.take(i + 1).last() == object.items@[i as int]);
                        }
                        if let Some(url) = url {
                            urls.push(url);
                            assert(texts(urls@) =~= texts(before).push(url@));
                        }
                        i = i + 1;
                    }
                    assert(object.items@.take(len as int) =~= object.items@);
                }
            }
        }
    }
    assert(texts(urls@) =~= event_urls(*event));
    urls
}

/// Gives the URLs of an event that are handed on: none, before a handler is installed.
pub fn forward_urls(installed: bool, event: &Option<AppleEvent>) -> (r: Vec<String>)
    ensures
        texts(r@) == (if installed {
            event_urls(*event)
        } else {
            Seq::empty()
        }),
{
    if !installed {
        let none: Vec<String> = Vec::new();
        assert(texts(none@) =~= Seq::empty());
        return none;
    }
    parse_urls_from_event(event)
}

/// Gives the handlers to register, or says why none can be.
pub fn register_url_handler(on_main_thread: bool, manager_available: bool) -> (r: Result<
    Vec<Registration>,
    RegistrationError,
>)
    ensures
        !on_main_thread ==> r == Err::<Vec<Registration>, _>(RegistrationError::NotMainThread),
        on_main_thread && !manager_available ==> r == Err::<Vec<Registration>, _>(
            RegistrationError::NoEventManager,
        ),
        on_main_thread && manager_available ==> (r matches Ok(list) && list@ == registrations()),
{
    if !on_main_thread {
        return Err(RegistrationError::NotMainThread);
    }
    if !manager_available {
        return Err(RegistrationError::NoEventManager);
    }
    let mut list: Vec<Registration> = Vec::new();
    list.push(
        Registration {
            handler: EventHandler::GetUrl,
            event_class: INTERNET_EVENT_CLASS,
            event_id: GET_URL,
        },
    );
    list.push(
        Registration {
            handler: EventHandler::OpenDocuments,
            event_class: CORE_EVENT_CLASS,
            event_id: OPEN_DOCUMENTS,
        },
    );
    assert(list@ =~= registrations());
    Ok(list)
}

/// The handlers in the order of their registration.
pub open spec fn registrations() -> Seq<Registration> {
    seq![
        Registration {
            handler: EventHandler::GetUrl,
            event_class: INTERNET_EVENT_CLASS,
            event_id: GET_URL,
        },
        Registration {
            handler: EventHandler::OpenDocuments,
            event_class: CORE_EVENT_CLASS,
            event_id: OPEN_DOCUMENTS,
        },
    ]
}

/// Exactly the events that a handler is registered for are read: any other event yields no URL.
pub proof fn law_registered_events_are_read(event: AppleEvent)
    ensures
        (exists|i: int|
            0 <= i < registrations().len() && (#[trigger] registrations()[i]).event_class
                == event.event_class && registrations()[i].event_id == event.event_id) <==> (
        is_url_event(event.event_class, event.event_id) || is_documents_event(
            event.event_class,
            event.event_id,
        )),
        event_urls(Some(event)).len() > 0 ==> is_url_event(event.event_class, event.event_id)
            || is_documents_event(event.event_class, event.event_id),
{
    let list = registrations();
    if is_url_event(event.event_class, event.event_id) {
        assert(list[0].event_class == event.event_class && list[0].event_id == event.event_id);
    }
    if is_documents_event(event.event_class, event.event_id) {
        assert(list[1].event_class == event.event_class && list[1].event_id == event.event_id);
    }
}

/// The URLs of a longer list of documents are those of its parts, in order.
pub proof fn law_documents_in_order(
    first: Seq<Option<Descriptor>>,
    second: Seq<Option<Descriptor>>,
)
    ensures
        document_urls(first + second) == document_urls(first) + document_urls(second),
    decreases second.len(),
{
    if second.len() == 0 {
        assert(first + second =~= first);
        assert(document_urls(first) + document_urls(second) =~= document_urls(first));
    } else {
        law_documents_in_order(first, second.drop_last());
        assert((first + second).drop_last() =~= first + second.drop_last());
        assert(document_urls(first + second) =~= document_urls(first) + document_urls(second));
    }
}

/// An event that carries a URL yields just that URL, if it has one.
pub proof fn law_url_event_yields_its_url(event: AppleEvent)
    requires
        event.event_class == 0x4755_524c,
        event.event_id == 0x4755_524c,
    ensures
        ({
            let urls = event_urls(Some(event));
            let has_url = event.direct_object is Some
                && event.direct_object->0.string_value is Some;
            &&& urls.len() == (if has_url {
                1nat
            } else {
                0nat
            })
            &&& has_url ==> urls[0] == event.direct_object->0.string_value->0@
        }),
{
}

/// Opening documents yields one URL for each element of the list that has one: that of the file,
/// where the element stands for a file, and else its text.
pub proof fn law_each_document_yields_its_url(event: AppleEvent, object: Descriptor, i: int)
    requires
        event.event_class == 0x6165_7674,
        event.event_id == 0x6f64_6f63,
        event.direct_object == Some(object),
        0 <= i < object.items@.len(),
        object.items@[i] is Some,
    ensures
        ({
            let urls = event_urls(Some(event));
            let element = object.items@[i]->0;
            &&& element.file_url matches Some(url) ==> (url matches Some(url) ==> urls.contains(
                url@,
            ))
            &&& element.file_url is None ==> (element.string_value matches Some(text)
                ==> urls.contains(text@))
            &&& urls.len() <= object.items@.len()
        }),
{
    lemma_document_is_listed(object.items@, i);
}

/// A document that has a URL is listed.
proof fn lemma_document_is_listed(items: Seq<Option<Descriptor>>, i: int)
    requires
        0 <= i < items.len(),
    ensures
        document_urls(items).len() <= items.len(),
        file_url_text(items[i]) is Some ==> document_urls(items).contains(
            file_url_text(items[i])->0,
        ),
    decreases items.len(),
{
    let before = items.drop_last();
    let all = document_urls(items);
    if i < before.len() {
        lemma_document_is_listed(before, i);
        if let Some(url) = file_url_text(items[i]) {
            let k = choose|k: int|
                0 <= k < document_urls(before).len() && document_urls(before)[k] == url;
            assert(all[k] == url);
        }
    } else {
        if before.len() > 0 {
            lemma_document_is_listed(before, 0);
        }
        if let Some(url) = file_url_text(items[i]) {
            assert(all[all.len() - 1] == url);
        }
    }
}

/// There is one handler for events that carry a URL and one for events that open documents, each
/// registered for just these events.
pub proof fn law_each_handler_has_its_events(i: int)
    requires
        0 <= i < registrations().len(),
    ensures
        ({
            let r = registrations()[i];
            match r.handler {
                EventHandler::GetUrl => r.event_class == 0x4755_524c && r.event_id == 0x4755_524c,
                EventHandler::OpenDocuments => r.event_class == 0x6165_7674 && r.event_id
                    == 0x6f64_6f63,
            }
        }),
        registrations().len() == 2,
        registrations()[0].handler != registrations()[1].handler,
{
}

/// Delivers the URLs that the system asks the application to open.
pub struct UrlHandler {
    receiver: Receiver<String>,
}

impl UrlHandler {
    /// The channel end at which URLs arrive.
    pub closed spec fn channel_end(&self) -> Receiver<String> {
        self.receiver
    }

    /// Makes the handler of the application, together with the sender that feeds it. There is one
    /// handler at most: none can be made once one is installed.
    #[must_use]
    pub fn install(installed: bool) -> (r: (UrlHandler, Sender<String>))
        requires
            !installed,
        ensures
            are_ends(r.1, r.0.channel_end()),
    {
        let (sender, receiver) = std::sync::mpsc::channel();
        (UrlHandler { receiver }, sender)
    }

    /// Takes a URL that has arrived, without waiting.
    pub fn try_recv(&self) -> (r: Option<String>)
        ensures
            is_received(self.channel_end(), r),
    {
        received(self.receiver.try_recv())
    }

    /// Gives the channel end at which URLs arrive.
    pub fn receiver(&self) -> (r: &Receiver<String>)
        ensures
            *r == self.channel_end(),
    {
        &self.receiver
    }

    /// Turns the handler into the channel end at which URLs arrive.
    pub fn into_receiver(self) -> (r: Receiver<String>)
        ensures
            r == self.channel_end(),
    {
        self.receiver
    }
}

} // verus!

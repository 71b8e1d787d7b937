use vstd::prelude::*;

verus! {

/// `serde_json::Value`, carried through an event as its free-form `data`.
/// Nothing in this library looks inside such a value.
#[verifier::external_type_specification]
#[verifier::external_body]
pub struct ExJsonValue(serde_json::Value);

/// The characters of each text in `texts`.
pub open spec fn str_views(texts: Seq<&str>) -> Seq<Seq<char>> {
    texts.map_values(|t: &str| t@)
}

/// The characters of each string in `strings`.
pub open spec fn string_views(strings: Seq<String>) -> Seq<Seq<char>> {
    strings.map_values(|s: String| s@)
}

/// An event to send to the API Alerts platform.
///
/// Only `message` is required. All other fields are optional and are left
/// out of the request body when unset.
#[derive(Debug, Clone)]
pub struct Event {
    pub message: String,
    pub channel: Option<String>,
    /// Sent under the name `event`.
    pub event_key: Option<String>,
    pub title: Option<String>,
    pub tags: Option<Vec<String>>,
    pub link: Option<String>,
    pub data: Option<serde_json::Value>,
}

impl Event {
    /// A new event with only a message; every optional field is unset.
    pub fn new(message: &str) -> (e: Self)
        ensures
            e.message@ == message@,
            e.channel is None,
            e.event_key is None,
            e.title is None,
            e.tags is None,
            e.link is None,
            e.data is None,
    {
        Event {
            message: message.to_owned(),
            channel: None,
            event_key: None,
            title: None,
            tags: None,
            link: None,
            data: None,
        }
    }

    /// Sets the target channel; every other field is kept.
    pub fn channel(self, channel: &str) -> (e: Self)
        ensures
            e.channel matches Some(c) && c@ == channel@,
            e.message == self.message,
            e.event_key == self.event_key,
            e.title == self.title,
            e.tags == self.tags,
            e.link == self.link,
            e.data == self.data,
    {
        let mut e = self;
        e.channel = Some(channel.to_owned());
        e
    }

    /// Sets the routing key, sent as `event`; every other field is kept.
    pub fn event(self, event: &str) -> (e: Self)
        ensures
            e.event_key matches Some(k) && k@ == event@,
            e.message == self.message,
            e.channel == self.channel,
            e.title == self.title,
            e.tags == self.tags,
            e.link == self.link,
            e.data == self.data,
    {
        let mut e = self;
        e.event_key = Some(event.to_owned());
        e
    }

    /// Sets the short title; every other field is kept.
    pub fn title(self, title: &str) -> (e: Self)
        ensures
            e.title matches Some(t) && t@ == title@,
            e.message == self.message,
            e.channel == self.channel,
            e.event_key == self.event_key,
            e.tags == self.tags,
            e.link == self.link,
            e.data == self.data,
    {
        let mut e = self;
        e.title = Some(title.to_owned());
        e
    }

    /// Sets the tags, in the order given; every other field is kept.
    pub fn tags(self, tags: Vec<&str>) -> (e: Self)
        ensures
            e.tags matches Some(ts) && string_views(ts@) == str_views(tags@),
            e.tags is Some && e.tags->Some_0@.len() == tags@.len(),
            e.tags is Some ==> forall|i: int|
                0 <= i < tags@.len() ==> #[trigger] e.tags->Some_0@[i]@ == tags@[i]@,
            e.message == self.message,
            e.channel == self.channel,
            e.event_key == self.event_key,
            e.title == self.title,
            e.link == self.link,
            e.data == self.data,
    {
        let mut owned: Vec<String> = Vec::new();
        let n = tags.len();
        for i in 0..n
            invariant
                n == tags@.len(),
                owned@.len() == i,
                forall|j: int| 0 <= j < i ==> #[trigger] owned@[j]@ == tags@[j]@,
        {
            owned.push(tags[i].to_owned());
        }
        assert(string_views(owned@) =~= str_views(tags@));
        let mut e = self;
        e.tags = Some(owned);
        e
    }

    /// Sets the associated URL; every other field is kept.
    pub fn link(self, link: &str) -> (e: Self)
        ensures
            e.link matches Some(l) && l@ == link@,
            e.message == self.message,
            e.channel == self.channel,
            e.event_key == self.event_key,
            e.title == self.title,
            e.tags == self.tags,
            e.data == self.data,
    {
        let mut e = self;
        e.link = Some(link.to_owned());
        e
    }

    /// Sets the free-form metadata; every other field is kept.
    pub fn data(self, data: serde_json::Value) -> (e: Self)
        ensures
            e.data == Some(data),
            e.message == self.message,
            e.channel == self.channel,
            e.event_key == self.event_key,
            e.title == self.title,
            e.tags == self.tags,
            e.link == self.link,
    {
        let mut e = self;
        e.data = Some(data);
        e
    }
}

} // verus!

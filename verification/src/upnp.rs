//! UPnP/OpenHome renderers: discovery responses, device descriptions, event
//! subscriptions and the events they deliver.
use vstd::prelude::*;

use crate::state::{parse_spec, Metadata, MetadataView, PlayerState};
use crate::xml::{
    attribute, attribute_spec, child_named, find_child_named, find_named, find_named_in,
    find_with_attribute, first_match, first_text, has_attribute, named, named_in, nodes_view,
    parse_xml, text_at, xml_document_nodes, XmlError, XmlNode, XmlNodeView,
};
use crate::text::{
    chars_eq, chars_eq_str, chars_of, decimal_spec, decimal_u64, eq_ignore_ascii_case,
    eq_ignore_ascii_case_spec, find, find_from, lemma_find_from_found, opt_view, push_chars,
    push_str, string_from_chars, subrange, trim, trim_spec,
};

verus! {

/// Service id of the OpenHome Info service.
pub const INFO_SERVICE_ID: &'static str = "urn:av-openhome-org:service:Info:1";

/// Service id of the OpenHome Playlist service.
pub const PLAYLIST_SERVICE_ID: &'static str = "urn:av-openhome-org:service:Playlist:1";

/// The callback path segment events of a service are delivered to.
pub open spec fn event_source_name_spec(service_id: Seq<char>) -> Seq<char> {
    if service_id == INFO_SERVICE_ID@ {
        "info"@
    } else {
        "playlist"@
    }
}

/// The callback path segment events of a service are delivered to: `info` for the Info
/// service, `playlist` for any other.
pub fn event_source_name(service_id: &str) -> (r: &'static str)
    ensures
        r@ == event_source_name_spec(service_id@),
{
    let s = chars_of(service_id);
    if chars_eq_str(s.as_slice(), INFO_SERVICE_ID) {
        "info"
    } else {
        "playlist"
    }
}

/// The URL a renderer is asked to deliver a service's events to:
/// `http://{local_ip}:{web_port}/upnp/events/{source}`.
pub open spec fn callback_url_spec(local_ip: Seq<char>, web_port: u16, service_id: Seq<char>) -> Seq<
    char,
> {
    "http://"@ + local_ip + ":"@ + decimal_spec(web_port as nat) + "/upnp/events"@ + "/"@
        + event_source_name_spec(service_id)
}

/// The URL a renderer is asked to deliver a service's events to.
pub fn callback_url(local_ip: &str, web_port: u16, service_id: &str) -> (r: String)
    ensures
        r@ == callback_url_spec(local_ip@, web_port, service_id@),
{
    let mut url = chars_of("http://");
    push_str(&mut url, local_ip);
    push_str(&mut url, ":");
    let port = decimal_u64(web_port as u64);
    push_chars(&mut url, port.as_slice());
    push_str(&mut url, "/upnp/events");
    push_str(&mut url, "/");
    push_str(&mut url, event_source_name(service_id));
    string_from_chars(url.as_slice())
}

/// The subscription id after a renewal: the one the renderer answered with, or the old one
/// when the answer carries none.
pub fn renewed_sid(answered: Option<String>, current: &String) -> (r: String)
    ensures
        r@ == match answered {
            Some(s) => s@,
            None => current@,
        },
{
    match answered {
        Some(s) => s,
        None => current.clone(),
    }
}

/// A line without its line feed and, before that, a carriage return
/// (how `str::lines` ends a line).
pub open spec fn strip_line_end(l: Seq<char>) -> Seq<char> {
    if l.len() > 0 && l.last() == '\r' {
        l.drop_last()
    } else {
        l
    }
}

/// The lines of a text, as `str::lines` gives them: split after each line feed, with the
/// line feed and a carriage return before it removed; no empty line after a final feed.
pub open spec fn lines_spec(s: Seq<char>) -> Seq<Seq<char>>
    decreases s.len(),
{
    if s.len() == 0 {
        Seq::empty()
    } else {
        match find_from(s, seq!['\n'], 0) {
            None => seq![s],
            Some(i) => {
                proof {
                    lemma_find_from_found(s, seq!['\n'], 0);
                }
                seq![strip_line_end(s.take(i))] + lines_spec(s.skip(i + 1))
            },
        }
    }
}

/// A header line's value, trimmed, when its name (before the first `:`) is `name` up to
/// ASCII case.
pub open spec fn line_header_spec(line: Seq<char>, name: Seq<char>) -> Option<Seq<char>> {
    match find_from(line, seq![':'], 0) {
        None => None,
        Some(i) => if eq_ignore_ascii_case_spec(line.take(i), name) {
            Some(trim_spec(line.skip(i + 1)))
        } else {
            None
        },
    }
}

/// The value of the first header line with the given name.
pub open spec fn header_value_in_lines(lines: Seq<Seq<char>>, name: Seq<char>) -> Option<Seq<char>>
    decreases lines.len(),
{
    if lines.len() == 0 {
        None
    } else {
        match line_header_spec(lines[0], name) {
            Some(v) => Some(v),
            None => header_value_in_lines(lines.drop_first(), name),
        }
    }
}

/// The value of the first header with the given name in a response.
pub open spec fn header_value_spec(response: Seq<char>, name: Seq<char>) -> Option<Seq<char>> {
    header_value_in_lines(lines_spec(response), name)
}

fn line_header(line: &[char], name: &[char]) -> (r: Option<Vec<char>>)
    ensures
        match r {
            Some(v) => line_header_spec(line@, name@) == Some(v@),
            None => line_header_spec(line@, name@) is None,
        },
{
    let line_len = line.len();
    let colon: Vec<char> = vec![':'];
    assert(colon@ =~= seq![':']);
    match find(line, colon.as_slice(), 0) {
        None => None,
        Some(i) => {
            proof {
                lemma_find_from_found(line@, seq![':'], 0);
            }
            let key = subrange(line, 0, i);
            assert(key@ =~= line@.take(i as int));
            if eq_ignore_ascii_case(key.as_slice(), name) {
                let value = subrange(line, i + 1, line_len);
                assert(value@ =~= line@.skip(i + 1));
                Some(trim(value.as_slice()))
            } else {
                None
            }
        },
    }
}

/// The value of the first header with the given name (compared up to ASCII case) in an
/// HTTP-style response, trimmed.
pub fn header_value(response: &str, name: &str) -> (r: Option<String>)
    ensures
        opt_view(r) == header_value_spec(response@, name@),
{
    let s = chars_of(response);
    let n = chars_of(name);
    let newline: Vec<char> = vec!['\n'];
    assert(newline@ =~= seq!['\n']);
    let mut pos: usize = 0;
    assert(s@.skip(0) =~= s@);
    while pos < s.len()
        invariant
            s@ == response@,
            n@ == name@,
            newline@ == seq!['\n'],
            pos <= s@.len(),
            header_value_spec(response@, name@) == header_value_in_lines(
                lines_spec(s@.skip(pos as int)),
                name@,
            ),
        decreases s@.len() - pos,
    {
        let ghost rest = s@.skip(pos as int);
        let (line, next) = match find(s.as_slice(), newline.as_slice(), pos) {
            None => {
                let l = subrange(s.as_slice(), pos, s.len());
                proof {
                    assert(l@ =~= rest);
                    lemma_find_shift(s@, seq!['\n'], pos as nat);
                    assert(lines_spec(rest) == seq![rest]);
                    assert(seq![rest].drop_first() =~= Seq::<Seq<char>>::empty());
                    assert(s@.skip(s@.len() as int) =~= Seq::<char>::empty());
                }
                (l, s.len())
            },
            Some(i) => {
                proof {
                    lemma_find_from_found(s@, seq!['\n'], pos as nat);
                    lemma_find_shift(s@, seq!['\n'], pos as nat);
                }
                let raw = subrange(s.as_slice(), pos, i);
                let l = if raw.len() > 0 && raw[raw.len() - 1] == '\r' {
                    subrange(raw.as_slice(), 0, raw.len() - 1)
                } else {
                    raw
                };
                proof {
                    assert(raw@ =~= rest.take(i - pos));
                    assert(l@ =~= strip_line_end(rest.take(i - pos)));
                    assert(s@.skip(i + 1) =~= rest.skip(i - pos + 1));
                    assert(lines_spec(rest) == seq![l@] + lines_spec(s@.skip(i + 1)));
                    assert((seq![l@] + lines_spec(s@.skip(i + 1))).drop_first() =~= lines_spec(
                        s@.skip(i + 1),
                    ));
                }
                (l, i + 1)
            },
        };
        match line_header(line.as_slice(), n.as_slice()) {
            Some(v) => {
                return Some(string_from_chars(v.as_slice()));
            },
            None => {},
        }
        pos = next;
    }
    proof {
        assert(s@.skip(pos as int).len() == 0);
    }
    None
}

/// Searching from a position finds what searching the rest of the text finds, shifted.
pub proof fn lemma_find_shift(s: Seq<char>, p: Seq<char>, k: nat)
    requires
        k <= s.len(),
    ensures
        match find_from(s, p, k) {
            Some(i) => find_from(s.skip(k as int), p, 0) == Some(i - k),
            None => find_from(s.skip(k as int), p, 0) is None,
        },
{
    lemma_find_shift_from(s, p, k, k);
}

proof fn lemma_find_shift_from(s: Seq<char>, p: Seq<char>, k: nat, j: nat)
    requires
        k <= j,
        k <= s.len(),
    ensures
        match find_from(s, p, j) {
            Some(i) => find_from(s.skip(k as int), p, (j - k) as nat) == Some(i - k),
            None => find_from(s.skip(k as int), p, (j - k) as nat) is None,
        },
    decreases s.len() - j,
{
    let t = s.skip(k as int);
    if j < s.len() {
        if j + p.len() <= s.len() {
            assert(t.subrange(j - k, j - k + p.len()) =~= s.subrange(j as int, (j + p.len()) as int));
        }
        assert(matches_at_shift(s, p, k as int, j as int));
        lemma_find_shift_from(s, p, k, j + 1);
        assert((j + 1 - k) as nat == (j - k) as nat + 1);
    }
}

/// Whether a pattern occurs at `j` in `s` or at `j - k` in `s` without its first `k` characters
/// is the same question.
pub open spec fn matches_at_shift(s: Seq<char>, p: Seq<char>, k: int, j: int) -> bool {
    crate::text::matches_at(s, p, j) == crate::text::matches_at(s.skip(k), p, j - k)
}

/// The texts of a list of strings.
pub open spec fn strings_view(v: Seq<String>) -> Seq<Seq<char>> {
    v.map_values(|s: String| s@)
}

/// The known locations after a discovery response: its `LOCATION` header is added at the
/// end unless it is already known.
pub open spec fn add_location_spec(known: Seq<Seq<char>>, response: Seq<char>) -> Seq<Seq<char>> {
    match header_value_spec(response, "location"@) {
        Some(l) => if known.contains(l) {
            known
        } else {
            known.push(l)
        },
        None => known,
    }
}

/// Adds the `LOCATION` header of a discovery response to the known locations, unless it
/// is already known.
pub fn add_location(locations: &mut Vec<String>, response: &str)
    ensures
        strings_view(final(locations)@) == add_location_spec(strings_view(old(locations)@), response@),
        header_value_spec(response@, "location"@) is None ==> final(locations)@ == old(locations)@,
{
    let location = match header_value(response, "location") {
        Some(l) => l,
        None => {
            return ;
        },
    };
    let ghost known = strings_view(locations@);
    let mut i: usize = 0;
    while i < locations.len()
        invariant
            known == strings_view(locations@),
            locations@ == old(locations)@,
            header_value_spec(response@, "location"@) == Some(location@),
            i <= locations@.len(),
            forall|j: int| 0 <= j < i ==> known[j] != location@,
        decreases locations@.len() - i,
    {
        if locations[i].eq(&location) {
            assert(known[i as int] == location@);
            assert(known.contains(location@));
            return ;
        }
        i = i + 1;
    }
    locations.push(location);
    assert(strings_view(locations@) =~= known.push(location@));
}

/// Discovery never lists a location twice: responses, however many and in whatever order,
/// keep the known locations free of repeats.
pub proof fn law_locations_stay_distinct(known: Seq<Seq<char>>, response: Seq<char>)
    requires
        known.no_duplicates(),
    ensures
        add_location_spec(known, response).no_duplicates(),
{
    if let Some(l) = header_value_spec(response, "location"@) {
        if !known.contains(l) {
            let next = known.push(l);
            assert forall|i: int, j: int| 0 <= i < next.len() && 0 <= j < next.len() && i != j
                implies next[i] != next[j] by {
                if i == known.len() as int {
                    assert(known[j] == next[j]);
                } else if j == known.len() as int {
                    assert(known[i] == next[i]);
                }
            }
        }
    }
}

} // verus!

verus! {

/// The state variables of a property-change event, in the order they appear.
pub struct EventVars {
    entries: Vec<(String, String)>,
}

/// The name and value of a variable pair.
pub open spec fn pair_view(p: (String, String)) -> (Seq<char>, Seq<char>) {
    (p.0@, p.1@)
}

/// The child elements of the node at table position `parent`, as name and text (empty
/// when the child has none), for the nodes before position `j`.
pub open spec fn child_vars_upto(ns: Seq<XmlNodeView>, parent: usize, j: nat) -> Seq<
    (Seq<char>, Seq<char>),
>
    decreases j,
{
    if j == 0 || j > ns.len() {
        Seq::empty()
    } else {
        let n = ns[j - 1];
        let before = child_vars_upto(ns, parent, (j - 1) as nat);
        if n.is_element && n.parent == Some(parent) {
            before.push(
                (
                    n.name,
                    match n.text {
                        Some(t) => t,
                        None => Seq::empty(),
                    },
                ),
            )
        } else {
            before
        }
    }
}

/// The variables of every `<property>` element among the first `k` nodes, in order.
pub open spec fn event_vars_upto(ns: Seq<XmlNodeView>, k: nat) -> Seq<(Seq<char>, Seq<char>)>
    decreases k,
{
    if k == 0 || k > ns.len() {
        Seq::empty()
    } else {
        let n = ns[k - 1];
        let before = event_vars_upto(ns, (k - 1) as nat);
        if n.is_element && n.name == "property"@ {
            before + child_vars_upto(ns, n.id, ns.len())
        } else {
            before
        }
    }
}

/// The value a variable was last given, as a map keeps it.
pub open spec fn last_value(entries: Seq<(Seq<char>, Seq<char>)>, key: Seq<char>) -> Option<Seq<char>>
    decreases entries.len(),
{
    if entries.len() == 0 {
        None
    } else if entries.last().0 == key {
        Some(entries.last().1)
    } else {
        last_value(entries.drop_last(), key)
    }
}

impl EventVars {
    /// The variables, in order.
    pub closed spec fn entries_view(&self) -> Seq<(Seq<char>, Seq<char>)> {
        self.entries@.map_values(|p: (String, String)| pair_view(p))
    }

    /// The value a variable was last given.
    pub fn get(&self, key: &str) -> (r: Option<String>)
        ensures
            opt_view(r) == last_value(self.entries_view(), key@),
    {
        let k = chars_of(key);
        let mut i: usize = self.entries.len();
        let ghost all = self.entries_view();
        assert(all.take(i as int) =~= all);
        while i > 0
            invariant
                k@ == key@,
                i <= self.entries@.len(),
                all == self.entries_view(),
                last_value(all, key@) == last_value(all.take(i as int), key@),
            decreases i,
        {
            let name = chars_of(self.entries[i - 1].0.as_str());
            assert(all.take(i as int).last() == pair_view(self.entries@[i - 1]));
            if chars_eq(name.as_slice(), k.as_slice()) {
                return Some(self.entries[i - 1].1.clone());
            }
            assert(all.take(i as int).drop_last() =~= all.take(i - 1));
            i = i - 1;
        }
        None
    }
}

/// Parses the body of a property-change event: the child elements of each `<property>`
/// element, with their text.
pub fn parse_event_vars(xml: &str) -> (r: Result<EventVars, XmlError>)
    ensures
        match r {
            Ok(vars) => xml_document_nodes(xml@) matches Some(ns) && vars.entries_view()
                == event_vars_upto(ns, ns.len()),
            Err(_) => xml_document_nodes(xml@) is None,
        },
{
    match parse_xml(xml) {
        Ok(nodes) => Ok(event_vars_from_nodes(&nodes)),
        Err(e) => Err(e),
    }
}

/// The variables of a parsed property-change event.
pub fn event_vars_from_nodes(nodes: &Vec<XmlNode>) -> (r: EventVars)
    ensures
        r.entries_view() == event_vars_upto(nodes_view(nodes@), nodes@.len()),
{
    let ghost ns = nodes_view(nodes@);
    let mut entries: Vec<(String, String)> = Vec::new();
    let property = chars_of("property");
    let mut k: usize = 0;
    while k < nodes.len()
        invariant
            ns == nodes_view(nodes@),
            property@ == "property"@,
            k <= nodes@.len(),
            entries@.map_values(|p: (String, String)| pair_view(p)) == event_vars_upto(
                ns,
                k as nat,
            ),
        decreases nodes@.len() - k,
    {
        let name = chars_of(nodes[k].name.as_str());
        if nodes[k].is_element && chars_eq(name.as_slice(), property.as_slice()) {
            let pid = nodes[k].id;
            let ghost before = entries@.map_values(|p: (String, String)| pair_view(p));
            let mut j: usize = 0;
            while j < nodes.len()
                invariant
                    ns == nodes_view(nodes@),
                    j <= nodes@.len(),
                    entries@.map_values(|p: (String, String)| pair_view(p)) == before
                        + child_vars_upto(ns, pid, j as nat),
                decreases nodes@.len() - j,
            {
                assert(ns[j as int] == nodes@[j as int]@);
                if nodes[j].is_element && nodes[j].parent == Some(pid) {
                    let text = match &nodes[j].text {
                        Some(t) => t.clone(),
                        None => String::new(),
                    };
                    let ghost prev = entries@;
                    let pair = (nodes[j].name.clone(), text);
                    let ghost pv = pair_view(pair);
                    assert(pv == (ns[j as int].name, match ns[j as int].text {
                        Some(t) => t,
                        None => Seq::<char>::empty(),
                    }));
                    entries.push(pair);
                    assert(entries@.map_values(|p: (String, String)| pair_view(p)) =~= prev.map_values(
                        |p: (String, String)| pair_view(p),
                    ).push(pv));
                    assert(child_vars_upto(ns, pid, (j + 1) as nat) == child_vars_upto(
                        ns,
                        pid,
                        j as nat,
                    ).push(pv));
                    assert(entries@.map_values(|p: (String, String)| pair_view(p)) =~= before
                        + child_vars_upto(ns, pid, (j + 1) as nat));
                }
                j = j + 1;
            }
        }
        k = k + 1;
    }
    EventVars { entries }
}

/// The Dublin Core namespace (`dc:title`).
pub const DC_NAMESPACE: &'static str = "http://purl.org/dc/elements/1.1/";

/// The UPnP metadata namespace (`upnp:artist`, `upnp:albumArtURI`).
pub const UPNP_NAMESPACE: &'static str = "urn:schemas-upnp-org:metadata-1-0/upnp/";

/// The track metadata in a DIDL-Lite document: title, artist and album art from their
/// namespaced elements, the track id from the first `id` attribute; no album, no
/// transport state.
pub open spec fn track_metadata_spec(ns: Seq<XmlNodeView>) -> MetadataView {
    MetadataView {
        player_state: None,
        title: first_text(ns, named_in(DC_NAMESPACE@, "title"@)),
        artist: first_text(ns, named_in(UPNP_NAMESPACE@, "artist"@)),
        cover_url: first_text(ns, named_in(UPNP_NAMESPACE@, "albumArtURI"@)),
        songid: match first_match(ns, has_attribute("id"@), 0) {
            Some(i) => attribute_spec(ns[i].attributes, "id"@),
            None => None,
        },
        album: None,
    }
}

/// Metadata with nothing in it.
pub open spec fn empty_metadata() -> MetadataView {
    MetadataView {
        player_state: None,
        songid: None,
        title: None,
        artist: None,
        album: None,
        cover_url: None,
    }
}

/// Parses track metadata (DIDL-Lite); blank text means no metadata.
pub fn parse_track_metadata(track_metadata_xml: &str) -> (r: Result<Metadata, XmlError>)
    ensures
        trim_spec(track_metadata_xml@).len() == 0 ==> (r matches Ok(m) && m@ == empty_metadata()),
        trim_spec(track_metadata_xml@).len() > 0 ==> match r {
            Ok(m) => xml_document_nodes(track_metadata_xml@) matches Some(ns) && m@
                == track_metadata_spec(ns),
            Err(_) => xml_document_nodes(track_metadata_xml@) is None,
        },
{
    let chars = chars_of(track_metadata_xml);
    let trimmed = trim(chars.as_slice());
    if trimmed.len() == 0 {
        return Ok(
            Metadata {
                player_state: None,
                songid: None,
                title: None,
                artist: None,
                album: None,
                cover_url: None,
            },
        );
    }
    match parse_xml(track_metadata_xml) {
        Ok(nodes) => Ok(track_metadata_from_nodes(&nodes)),
        Err(e) => Err(e),
    }
}

/// The track metadata of a parsed DIDL-Lite document.
pub fn track_metadata_from_nodes(nodes: &Vec<XmlNode>) -> (r: Metadata)
    ensures
        r@ == track_metadata_spec(nodes_view(nodes@)),
{
    let title = text_at(nodes, find_named_in(nodes, DC_NAMESPACE, "title"));
    let artist = text_at(nodes, find_named_in(nodes, UPNP_NAMESPACE, "artist"));
    let cover_url = text_at(nodes, find_named_in(nodes, UPNP_NAMESPACE, "albumArtURI"));
    let songid = match find_with_attribute(nodes, "id") {
        Some(i) => attribute(&nodes[i], "id"),
        None => None,
    };
    Metadata { player_state: None, title, artist, cover_url, songid, album: None }
}

/// What a property-change event reports to the session: a transport state, then
/// metadata. A body that is not XML reports nothing; an unknown transport state or
/// metadata that is not XML is left out.
pub struct UpnpEventReport {
    pub transport: Option<PlayerState>,
    pub metadata: Option<Metadata>,
}

/// What the session hears of an event body.
pub open spec fn event_transport_spec(ns: Seq<XmlNodeView>) -> Option<PlayerState> {
    match last_value(event_vars_upto(ns, ns.len()), "TransportState"@) {
        Some(t) => parse_spec(t),
        None => None,
    }
}

/// Turns an event body into session updates.
pub fn process_event(body: &str) -> (r: UpnpEventReport)
    ensures
        match xml_document_nodes(body@) {
            None => r.transport is None && r.metadata is None,
            Some(ns) => {
                &&& r.transport == event_transport_spec(ns)
                &&& match last_value(event_vars_upto(ns, ns.len()), "Metadata"@) {
                    None => r.metadata is None,
                    Some(mx) => if trim_spec(mx).len() == 0 {
                        r.metadata matches Some(m) && m@ == empty_metadata()
                    } else {
                        match xml_document_nodes(mx) {
                            None => r.metadata is None,
                            Some(mns) => r.metadata matches Some(m) && m@ == track_metadata_spec(
                                mns,
                            ),
                        }
                    },
                }
            },
        },
{
    let vars = match parse_event_vars(body) {
        Ok(v) => v,
        Err(_) => {
            return UpnpEventReport { transport: None, metadata: None };
        },
    };
    let transport = match vars.get("TransportState") {
        Some(t) => PlayerState::parse(t.as_str()),
        None => None,
    };
    let metadata = match vars.get("Metadata") {
        Some(mx) => match parse_track_metadata(mx.as_str()) {
            Ok(m) => Some(m),
            Err(_) => None,
        },
        None => None,
    };
    UpnpEventReport { transport, metadata }
}

} // verus!

verus! {

/// Name for what `url::Url::parse` gives for a text: `None` when it is not an absolute
/// URL, else the URL's normalized serialization (`Url::as_str`).
pub uninterp spec fn url_parsed(input: Seq<char>) -> Option<Seq<char>>;

/// Name for what resolving a reference against a base URL with `url::Url::join` gives
/// (the base given by its serialization): `None` when it fails, else the serialization of
/// the resolved URL.
pub uninterp spec fn url_joined(base: Seq<char>, input: Seq<char>) -> Option<Seq<char>>;

/// `url::Url::parse`, with the URL kept as its serialization. Trusted: the result is
/// `url_parsed` of the input.
#[verifier::external_body]
fn url_parse(input: &str) -> (r: Option<String>)
    ensures
        opt_view(r) == url_parsed(input@),
{
    url::Url::parse(input).ok().map(|u| u.as_str().to_string())
}

/// `url::Url::join` on the URL that `base` serializes. Trusted: the result is
/// `url_joined` of the two texts.
#[verifier::external_body]
fn url_join(base: &str, input: &str) -> (r: Option<String>)
    ensures
        opt_view(r) == url_joined(base@, input@),
{
    url::Url::parse(base).and_then(|b| b.join(input)).ok().map(|u| u.as_str().to_string())
}

/// Name for the host that `url::Url::host_str` gives of the URL a text parses to with
/// `url::Url::parse`: `None` when the text is not a URL or the URL has no host.
pub uninterp spec fn url_host_of(url: Seq<char>) -> Option<Seq<char>>;

/// `url::Url::host_str` of the URL `url` parses to. Trusted: the result is `url_host_of`
/// of the text.
#[verifier::external_body]
fn url_host(url: &str) -> (r: Option<String>)
    ensures
        opt_view(r) == url_host_of(url@),
{
    match url::Url::parse(url) {
        Ok(u) => u.host_str().map(str::to_string),
        Err(_) => None,
    }
}

/// The host of a device's location (a serialized URL), which the service finds its own
/// address towards; `None` when it has none.
pub fn location_host(location: &str) -> (r: Option<String>)
    ensures
        opt_view(r) == url_host_of(location@),
{
    url_host(location)
}

/// A discovered location as a URL (serialized), or `None` when it is not one; such
/// locations are skipped.
pub fn parse_location(location: &str) -> (r: Option<String>)
    ensures
        opt_view(r) == url_parsed(location@),
{
    url_parse(location)
}

/// A service of the renderer whose events the service subscribes to.
pub struct ServiceEndpoint {
    pub service_id: String,
    pub event_sub_url: String,
}

/// The renderer that was looked for: where its description is, and its services.
pub struct TargetDevice {
    pub location: String,
    pub services: Vec<ServiceEndpoint>,
}

/// Why a device description was rejected.
#[derive(Debug)]
pub enum DeviceError {
    /// The description is not well-formed XML.
    Xml,
    /// An event subscription URL cannot be resolved against the location.
    Url,
}

/// The text of the first child element of the node at table position `parent` with the
/// given name (empty when there is none or it has no text).
pub open spec fn child_text_spec(ns: Seq<XmlNodeView>, parent: usize, name: Seq<char>) -> Option<
    Seq<char>,
> {
    first_text(ns, child_named(parent, name))
}

/// The event endpoints of the Info and Playlist services among the nodes from position
/// `k` on; services without an event URL are skipped, and `None` when an event URL does
/// not resolve.
pub open spec fn services_from(ns: Seq<XmlNodeView>, location: Seq<char>, k: nat) -> Option<
    Seq<(Seq<char>, Seq<char>)>,
>
    decreases ns.len() - k,
{
    if k >= ns.len() {
        Some(Seq::empty())
    } else {
        let n = ns[k as int];
        let rest = services_from(ns, location, k + 1);
        if !(n.is_element && n.name == "service"@) {
            rest
        } else {
            let sid = match child_text_spec(ns, n.id, "serviceId"@) {
                Some(t) => t,
                None => Seq::empty(),
            };
            if sid != INFO_SERVICE_ID@ && sid != PLAYLIST_SERVICE_ID@ {
                rest
            } else {
                match child_text_spec(ns, n.id, "eventSubURL"@) {
                    None => rest,
                    Some(e) => match url_joined(location, e) {
                        None => None,
                        Some(u) => match rest {
                            None => None,
                            Some(r) => Some(seq![(sid, u)] + r),
                        },
                    },
                }
            }
        }
    }
}

/// The endpoints of a device's services, as pairs of id and event URL.
pub open spec fn endpoints_view(v: Seq<ServiceEndpoint>) -> Seq<(Seq<char>, Seq<char>)> {
    v.map_values(|e: ServiceEndpoint| (e.service_id@, e.event_sub_url@))
}

/// The device a parsed description describes, if it is the renderer named
/// `renderer_name` (compared up to ASCII case with its `friendlyName`).
pub open spec fn device_from_nodes_spec(
    location: Seq<char>,
    ns: Seq<XmlNodeView>,
    renderer_name: Seq<char>,
) -> Result<Option<Seq<(Seq<char>, Seq<char>)>>, DeviceError> {
    let friendly = match first_text(ns, named("friendlyName"@)) {
        Some(t) => t,
        None => Seq::empty(),
    };
    if !eq_ignore_ascii_case_spec(friendly, renderer_name) {
        Ok(None)
    } else {
        match services_from(ns, location, 0) {
            None => Err(DeviceError::Url),
            Some(s) => Ok(Some(s)),
        }
    }
}

/// The device a description text describes.
pub open spec fn device_description_spec(
    location: Seq<char>,
    xml: Seq<char>,
    renderer_name: Seq<char>,
) -> Result<Option<Seq<(Seq<char>, Seq<char>)>>, DeviceError> {
    match xml_document_nodes(xml) {
        None => Err(DeviceError::Xml),
        Some(ns) => device_from_nodes_spec(location, ns, renderer_name),
    }
}

/// Whether a result matches what the description spec says.
pub open spec fn device_result_matches(
    r: Result<Option<TargetDevice>, DeviceError>,
    expected: Result<Option<Seq<(Seq<char>, Seq<char>)>>, DeviceError>,
    location: Seq<char>,
) -> bool {
    match (r, expected) {
        (Ok(None), Ok(None)) => true,
        (Ok(Some(d)), Ok(Some(s))) => d.location@ == location && endpoints_view(d.services@) == s,
        (Err(DeviceError::Xml), Err(DeviceError::Xml)) => true,
        (Err(DeviceError::Url), Err(DeviceError::Url)) => true,
        _ => false,
    }
}

fn child_text(nodes: &Vec<XmlNode>, parent: usize, name: &str) -> (r: String)
    ensures
        r@ == match child_text_spec(nodes_view(nodes@), parent, name@) {
            Some(t) => t,
            None => Seq::empty(),
        },
{
    match text_at(nodes, find_child_named(nodes, parent, name)) {
        Some(t) => t,
        None => String::new(),
    }
}

/// Reads a device description fetched from `location` (a serialized URL): the renderer's
/// Info and Playlist event endpoints when its friendly name is `renderer_name`, else `None`.
pub fn parse_device_description(location: &str, xml: &str, renderer_name: &str) -> (r: Result<
    Option<TargetDevice>,
    DeviceError,
>)
    ensures
        device_result_matches(r, device_description_spec(location@, xml@, renderer_name@), location@),
{
    match parse_xml(xml) {
        Ok(nodes) => device_from_nodes(location, &nodes, renderer_name),
        Err(_) => Err(DeviceError::Xml),
    }
}

/// Reads a parsed device description fetched from `location`.
pub fn device_from_nodes(location: &str, nodes: &Vec<XmlNode>, renderer_name: &str) -> (r: Result<
    Option<TargetDevice>,
    DeviceError,
>)
    ensures
        device_result_matches(
            r,
            device_from_nodes_spec(location@, nodes_view(nodes@), renderer_name@),
            location@,
        ),
{
    let ghost ns = nodes_view(nodes@);
    let friendly = match text_at(nodes, find_named(nodes, "friendlyName")) {
        Some(t) => t,
        None => String::new(),
    };
    let friendly_chars = chars_of(friendly.as_str());
    let wanted = chars_of(renderer_name);
    if !eq_ignore_ascii_case(friendly_chars.as_slice(), wanted.as_slice()) {
        return Ok(None);
    }
    let mut services: Vec<ServiceEndpoint> = Vec::new();
    let service = chars_of("service");
    let mut k: usize = 0;
    assert(endpoints_view(services@) =~= Seq::<(Seq<char>, Seq<char>)>::empty());
    while k < nodes.len()
        invariant
            ns == nodes_view(nodes@),
            service@ == "service"@,
            k <= nodes@.len(),
            device_from_nodes_spec(location@, ns, renderer_name@) == match services_from(
                ns,
                location@,
                0,
            ) {
                None => Err(DeviceError::Url),
                Some(s) => Ok(Some(s)),
            },
            services_from(ns, location@, 0) == match services_from(ns, location@, k as nat) {
                Some(rest) => Some(endpoints_view(services@) + rest),
                None => None,
            },
        decreases nodes@.len() - k,
    {
        assert(ns[k as int] == nodes@[k as int]@);
        let name = chars_of(nodes[k].name.as_str());
        if nodes[k].is_element && chars_eq(name.as_slice(), service.as_slice()) {
            let id = nodes[k].id;
            let sid = child_text(nodes, id, "serviceId");
            let sid_chars = chars_of(sid.as_str());
            if chars_eq_str(sid_chars.as_slice(), INFO_SERVICE_ID) || chars_eq_str(
                sid_chars.as_slice(),
                PLAYLIST_SERVICE_ID,
            ) {
                match text_at(nodes, find_child_named(nodes, id, "eventSubURL")) {
                    None => {},
                    Some(event_sub_url) => match url_join(location, event_sub_url.as_str()) {
                        None => {
                            assert(services_from(ns, location@, k as nat) is None);
                            return Err(DeviceError::Url);
                        },
                        Some(u) => {
                            let ghost prev = endpoints_view(services@);
                            services.push(ServiceEndpoint { service_id: sid, event_sub_url: u });
                            proof {
                                let item = (sid_chars@, u@);
                                assert(endpoints_view(services@) =~= prev.push(item));
                                match services_from(ns, location@, (k + 1) as nat) {
                                    Some(rest) => {
                                        assert(prev + (seq![item] + rest) =~= prev.push(item)
                                            + rest);
                                    },
                                    None => {},
                                }
                            }
                        },
                    },
                }
            }
        }
        k = k + 1;
    }
    assert(endpoints_view(services@) + Seq::<(Seq<char>, Seq<char>)>::empty() =~= endpoints_view(
        services@,
    ));
    Ok(Some(TargetDevice { location: string_from_chars(chars_of(location).as_slice()), services }))
}

} // verus!

verus! {

/// A property-change event delivered to the web server: the callback path segment it
/// came in on, and its body.
#[derive(Clone, Debug)]
pub struct UpnpEvent {
    pub source: String,
    pub body: String,
}

/// The event for a request to `/upnp/events/{source}`: the body is read as lossy UTF-8.
pub fn upnp_event_from_request(source: String, body: &[u8]) -> (r: UpnpEvent)
    ensures
        r.source@ == source@,
        r.body@ == crate::shairport::lossy_text_spec(body@),
{
    UpnpEvent { source, body: crate::shairport::utf8_lossy(body) }
}

} // verus!

verus! {

/// The last value recorded under a key is the one at its last occurrence.
pub proof fn lemma_last_value_at(e: Seq<(Seq<char>, Seq<char>)>, key: Seq<char>, i: int)
    requires
        0 <= i < e.len(),
        e[i].0 == key,
        forall|j: int| i < j < e.len() ==> (#[trigger] e[j]).0 != key,
    ensures
        last_value(e, key) == Some(e[i].1),
    decreases e.len(),
{
    if i < e.len() - 1 {
        assert(e.last() == e[e.len() - 1]);
        lemma_last_value_at(e.drop_last(), key, i);
    }
}

/// A key that does not occur has no value.
pub proof fn lemma_last_value_absent(e: Seq<(Seq<char>, Seq<char>)>, key: Seq<char>)
    requires
        forall|j: int| 0 <= j < e.len() ==> (#[trigger] e[j]).0 != key,
    ensures
        last_value(e, key) is None,
    decreases e.len(),
{
    if e.len() > 0 {
        assert(e.last() == e[e.len() - 1]);
        lemma_last_value_absent(e.drop_last(), key);
    }
}

/// The transport state an event reports is what `PlayerState::parse` reads from the last
/// `TransportState` variable among the event's properties (so `PAUSED_PLAYBACK` is a pause).
pub proof fn law_event_transport_is_last_reported(ns: Seq<XmlNodeView>, i: int)
    requires
        0 <= i < event_vars_upto(ns, ns.len()).len(),
        event_vars_upto(ns, ns.len())[i].0 == "TransportState"@,
        forall|j: int|
            i < j < event_vars_upto(ns, ns.len()).len() ==> (#[trigger] event_vars_upto(
                ns,
                ns.len(),
            )[j]).0 != "TransportState"@,
    ensures
        event_transport_spec(ns) == parse_spec(event_vars_upto(ns, ns.len())[i].1),
{
    lemma_last_value_at(event_vars_upto(ns, ns.len()), "TransportState"@, i);
}

/// An event without a `TransportState` variable reports no transport state.
pub proof fn law_event_without_transport_reports_none(ns: Seq<XmlNodeView>)
    requires
        forall|j: int|
            0 <= j < event_vars_upto(ns, ns.len()).len() ==> (#[trigger] event_vars_upto(
                ns,
                ns.len(),
            )[j]).0 != "TransportState"@,
    ensures
        event_transport_spec(ns) is None,
{
    lemma_last_value_absent(event_vars_upto(ns, ns.len()), "TransportState"@);
}

} // verus!

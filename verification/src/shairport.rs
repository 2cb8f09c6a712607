//! Shairport Sync (AirPlay) metadata: `<item>` blocks read from the metadata pipe, decoded
//! into transport changes and track metadata.
use vstd::prelude::*;

use crate::state::{Metadata, MetadataView, PlayerState};
use crate::text::{
    chars_eq_str, chars_of, find, find_from, lemma_find_from_found, opt_view, push_str,
    string_from_chars, subrange, trim, trim_spec,
};
use crate::xml::{
    attribute, attribute_spec, find_named, first_match, named, nodes_view, parse_xml,
    xml_document_nodes, XmlNode, XmlNodeView,
};

verus! {

/// The value of an ASCII hexadecimal digit.
pub open spec fn hex_value_spec(b: u8) -> Option<u8> {
    if 48 <= b <= 57 {
        Some((b - 48) as u8)
    } else if 97 <= b <= 102 {
        Some((b - 87) as u8)
    } else if 65 <= b <= 70 {
        Some((b - 55) as u8)
    } else {
        None
    }
}

/// The value of a two-character hex field, as `u8::from_str_radix(.., 16)` reads it: two
/// hex digits, or a `+` sign followed by one.
pub open spec fn hex_pair_spec(a: u8, b: u8) -> Option<u8> {
    if a == 43 {
        hex_value_spec(b)
    } else {
        match (hex_value_spec(a), hex_value_spec(b)) {
            (Some(x), Some(y)) => Some((x * 16 + y) as u8),
            _ => None,
        }
    }
}

/// Decodes hex text two bytes at a time; a trailing odd byte is ignored, and any pair
/// that is not a hex field makes the whole decoding fail.
pub open spec fn decode_hex_spec(b: Seq<u8>) -> Option<Seq<u8>>
    decreases b.len(),
{
    if b.len() < 2 {
        Some(Seq::empty())
    } else {
        match hex_pair_spec(b[0], b[1]) {
            None => None,
            Some(v) => match decode_hex_spec(b.skip(2)) {
                Some(rest) => Some(seq![v] + rest),
                None => None,
            },
        }
    }
}

fn hex_value(b: u8) -> (r: Option<u8>)
    ensures
        r == hex_value_spec(b),
{
    if 48 <= b && b <= 57 {
        Some(b - 48)
    } else if 97 <= b && b <= 102 {
        Some(b - 87)
    } else if 65 <= b && b <= 70 {
        Some(b - 55)
    } else {
        None
    }
}

fn hex_pair(a: u8, b: u8) -> (r: Option<u8>)
    ensures
        r == hex_pair_spec(a, b),
{
    if a == 43 {
        hex_value(b)
    } else {
        match (hex_value(a), hex_value(b)) {
            (Some(x), Some(y)) => Some(x * 16 + y),
            _ => None,
        }
    }
}

/// Hex text that is not a sequence of two-character hex fields.
#[derive(Debug)]
pub struct HexError;

proof fn lemma_decode_hex_step(b: Seq<u8>, i: int)
    requires
        0 <= i,
        i + 2 <= b.len(),
    ensures
        decode_hex_spec(b.skip(i)) == match hex_pair_spec(b[i], b[i + 1]) {
            None => None,
            Some(v) => match decode_hex_spec(b.skip(i + 2)) {
                Some(rest) => Some(seq![v] + rest),
                None => None,
            },
        },
{
    assert(b.skip(i).skip(2) =~= b.skip(i + 2));
}

/// Decodes a hex-encoded byte string.
pub fn decode_hex(input: &[u8]) -> (r: Result<Vec<u8>, HexError>)
    ensures
        match r {
            Ok(v) => decode_hex_spec(input@) == Some(v@),
            Err(_) => decode_hex_spec(input@) is None,
        },
{
    let mut out: Vec<u8> = Vec::new();
    let mut i: usize = 0;
    assert(input@.skip(0) =~= input@);
    while input.len() - i >= 2
        invariant
            i <= input@.len(),
            decode_hex_spec(input@) == match decode_hex_spec(input@.skip(i as int)) {
                Some(rest) => Some(out@ + rest),
                None => None,
            },
        decreases input@.len() - i,
    {
        proof {
            lemma_decode_hex_step(input@, i as int);
        }
        match hex_pair(input[i], input[i + 1]) {
            Some(v) => {
                proof {
                    match decode_hex_spec(input@.skip(i + 2)) {
                        Some(rest) => {
                            assert(out@ + (seq![v] + rest) =~= out@.push(v) + rest);
                        },
                        None => {},
                    }
                }
                out.push(v);
            },
            None => {
                return Err(HexError);
            },
        }
        i = i + 2;
    }
    assert(decode_hex_spec(input@.skip(i as int)) == Some(Seq::<u8>::empty()));
    assert(out@ + Seq::<u8>::empty() =~= out@);
    Ok(out)
}

/// The ASCII code of the hex digit for a value below 16: lowercase, or uppercase with `upper`.
pub open spec fn hex_digit_byte(n: u8, upper: bool) -> u8 {
    if n < 10 {
        (48 + n) as u8
    } else if upper {
        (55 + n) as u8
    } else {
        (87 + n) as u8
    }
}

/// Bytes written as hex text, two ASCII digits per byte (`{:02x}` for each byte, or
/// `{:02X}` with `upper`).
pub open spec fn hex_encode_spec(b: Seq<u8>, upper: bool) -> Seq<u8>
    decreases b.len(),
{
    if b.len() == 0 {
        Seq::empty()
    } else {
        seq![hex_digit_byte(b[0] / 16, upper), hex_digit_byte(b[0] % 16, upper)]
            + hex_encode_spec(b.skip(1), upper)
    }
}

/// Decoding hex text gives back the bytes it was written from, in either letter case.
pub proof fn law_decode_hex_round_trip(b: Seq<u8>, upper: bool)
    ensures
        decode_hex_spec(hex_encode_spec(b, upper)) == Some(b),
    decreases b.len(),
{
    let h = hex_encode_spec(b, upper);
    if b.len() == 0 {
        assert(b =~= Seq::<u8>::empty());
    } else {
        law_decode_hex_round_trip(b.skip(1), upper);
        assert(h.skip(2) =~= hex_encode_spec(b.skip(1), upper));
        let x = b[0];
        let q = (x / 16) as u8;
        let r = (x % 16) as u8;
        assert(hex_value_spec(hex_digit_byte(q, upper)) == Some(q));
        assert(hex_value_spec(hex_digit_byte(r, upper)) == Some(r));
        assert(hex_digit_byte(q, upper) != 43);
        assert((q * 16 + r) as u8 == x);
        assert(hex_pair_spec(h[0], h[1]) == Some(x));
        assert(seq![x] + b.skip(1) =~= b);
    }
}

/// A decoded result has one byte for every two input bytes (a trailing odd byte is dropped).
pub proof fn law_decode_hex_length(b: Seq<u8>)
    ensures
        decode_hex_spec(b) matches Some(v) ==> v.len() == b.len() / 2,
    decreases b.len(),
{
    if b.len() >= 2 {
        law_decode_hex_length(b.skip(2));
    }
}

/// The transport state a Shairport code announces.
pub open spec fn transport_state_spec(code: Seq<char>) -> Option<PlayerState> {
    if code == "prsm"@ {
        Some(PlayerState::Playing)
    } else if code == "pend"@ {
        Some(PlayerState::Stopped)
    } else if code == "paus"@ {
        Some(PlayerState::Paused)
    } else {
        None
    }
}

/// The transport state a Shairport code announces: play resume, play end, pause.
pub fn transport_state(code: &str) -> (r: Option<PlayerState>)
    ensures
        r == transport_state_spec(code@),
{
    let c = chars_of(code);
    if chars_eq_str(c.as_slice(), "prsm") {
        Some(PlayerState::Playing)
    } else if chars_eq_str(c.as_slice(), "pend") {
        Some(PlayerState::Stopped)
    } else if chars_eq_str(c.as_slice(), "paus") {
        Some(PlayerState::Paused)
    } else {
        None
    }
}

/// Codes that announce a transport change.
pub open spec fn is_transport_code(code: Seq<char>) -> bool {
    code == "prsm"@ || code == "paus"@ || code == "pend"@
}

/// Codes that carry track metadata: artist, title, picture, metadata start and end.
pub open spec fn is_metadata_code(code: Seq<char>) -> bool {
    code == "asar"@ || code == "minm"@ || code == "PICT"@ || code == "mden"@ || code == "mdst"@
}

/// Name for what `String::from_utf8_lossy` gives for bytes: the UTF-8 decoding with each
/// invalid sequence replaced by U+FFFD.
pub uninterp spec fn utf8_lossy_of(b: Seq<u8>) -> Seq<char>;

/// `String::from_utf8_lossy`. Trusted: the text is `utf8_lossy_of` of the bytes, and for
/// valid UTF-8 it is exactly the text the bytes encode (nothing is replaced).
#[verifier::external_body]
pub(crate) fn utf8_lossy(b: &[u8]) -> (r: String)
    ensures
        r@ == utf8_lossy_of(b@),
        vstd::utf8::valid_utf8(b@) ==> r@ == vstd::utf8::decode_utf8(b@),
{
    String::from_utf8_lossy(b).into_owned()
}

/// The text `String::from_utf8_lossy` gives for bytes: the encoded text for valid UTF-8,
/// else `utf8_lossy_of` of the bytes.
pub open spec fn lossy_text_spec(b: Seq<u8>) -> Seq<char> {
    if vstd::utf8::valid_utf8(b) {
        vstd::utf8::decode_utf8(b)
    } else {
        utf8_lossy_of(b)
    }
}

/// The UTF-8 bytes of any text read back as that text.
pub proof fn lemma_lossy_text_of_encoding(t: Seq<char>)
    ensures
        lossy_text_spec(vstd::utf8::encode_utf8(t)) == t,
{
    vstd::utf8::encode_utf8_valid_utf8(t);
    vstd::utf8::encode_utf8_decode_utf8(t);
}

/// Name for what the `base64` crate's `STANDARD` engine decodes a byte string to:
/// `None` when the input is not canonical padded standard-alphabet Base64.
pub uninterp spec fn base64_standard_decoded(input: Seq<u8>) -> Option<Seq<u8>>;

/// `base64::engine::general_purpose::STANDARD.decode`. Trusted: the result is
/// `base64_standard_decoded` of the input (`None` for a decoding error).
#[verifier::external_body]
fn base64_decode(input: &[u8]) -> (r: Option<Vec<u8>>)
    ensures
        match r {
            Some(v) => base64_standard_decoded(input@) == Some(v@),
            None => base64_standard_decoded(input@) is None,
        },
{
    base64::Engine::decode(&base64::engine::general_purpose::STANDARD, input).ok()
}

/// The value carried by a `<data>` element's text: nothing when the trimmed text is empty,
/// the Base64 decoding when the element says `encoding="base64"`, else the text's bytes.
pub open spec fn item_value_spec(ns: Seq<XmlNodeView>) -> Option<Seq<u8>> {
    match first_match(ns, named("data"@), 0) {
        None => None,
        Some(i) => match ns[i].text {
            None => None,
            Some(t) => {
                let content = trim_spec(t);
                if content.len() == 0 {
                    None
                } else if attribute_spec(ns[i].attributes, "encoding"@) == Some("base64"@) {
                    base64_standard_decoded(vstd::utf8::encode_utf8(content))
                } else {
                    Some(vstd::utf8::encode_utf8(content))
                }
            },
        },
    }
}

/// The hex text of an item's `<code>` element (empty when there is none or it has no text).
pub open spec fn item_code_hex_spec(ns: Seq<XmlNodeView>) -> Seq<char> {
    match first_match(ns, named("code"@), 0) {
        Some(i) => match ns[i].text {
            Some(t) => t,
            None => Seq::empty(),
        },
        None => Seq::empty(),
    }
}

/// What the nodes of an `<item>` block decode to: its four-character code and its value,
/// or `None` when its code is not hex.
pub open spec fn item_from_nodes_spec(ns: Seq<XmlNodeView>) -> Option<(Seq<char>, Option<Seq<u8>>)> {
    match decode_hex_spec(vstd::utf8::encode_utf8(item_code_hex_spec(ns))) {
        None => None,
        Some(code_bytes) => Some((lossy_text_spec(code_bytes), item_value_spec(ns))),
    }
}

/// What an `<item>` block parses to: its four-character code and its value, or `None`
/// when the block is not XML or its code is not hex.
pub open spec fn parse_item_spec(item: Seq<char>) -> Option<(Seq<char>, Option<Seq<u8>>)> {
    match xml_document_nodes(item) {
        None => None,
        Some(ns) => item_from_nodes_spec(ns),
    }
}

/// Hex text as characters: the ASCII digits of `hex_encode_spec`.
pub open spec fn hex_text_spec(b: Seq<u8>, upper: bool) -> Seq<char> {
    hex_encode_spec(b, upper).map_values(|x: u8| x as char)
}

proof fn lemma_hex_encode_digits(b: Seq<u8>, upper: bool)
    ensures
        forall|i: int| 0 <= i < hex_encode_spec(b, upper).len() ==> 48 <= #[trigger] hex_encode_spec(
            b,
            upper,
        )[i] < 128,
    decreases b.len(),
{
    if b.len() > 0 {
        lemma_hex_encode_digits(b.skip(1), upper);
        let h = hex_encode_spec(b, upper);
        let t = hex_encode_spec(b.skip(1), upper);
        assert forall|i: int| 0 <= i < h.len() implies 48 <= #[trigger] h[i] < 128 by {
            if i >= 2 {
                assert(h[i] == t[i - 2]);
            }
        }
    }
}

/// Hex text is ASCII, so its UTF-8 bytes are the hex digits themselves.
pub proof fn lemma_hex_text_bytes(b: Seq<u8>, upper: bool)
    ensures
        vstd::utf8::encode_utf8(hex_text_spec(b, upper)) == hex_encode_spec(b, upper),
{
    let h = hex_encode_spec(b, upper);
    let t = hex_text_spec(b, upper);
    lemma_hex_encode_digits(b, upper);
    assert forall|i: int| 0 <= i < t.len() implies '\0' <= #[trigger] t[i] <= '\u{7f}' by {
        assert(t[i] == h[i] as char);
        assert((h[i] as char) as u32 == h[i] as u32);
    }
    vstd::utf8::is_ascii_chars_encode_utf8(t);
    let e = vstd::utf8::encode_utf8(t);
    assert forall|i: int| 0 <= i < h.len() implies e[i] == h[i] by {
        assert(t[i] as u8 == e[i]);
        assert((h[i] as char) as u8 == h[i]);
    }
    assert(e =~= h);
}

/// An `<item>` whose `<code>` element holds the hex of a code's UTF-8 bytes (in either
/// letter case) is read as that code, with the value its `<data>` element carries.
pub proof fn law_item_code_reads_back(ns: Seq<XmlNodeView>, code: Seq<char>, upper: bool)
    requires
        item_code_hex_spec(ns) == hex_text_spec(vstd::utf8::encode_utf8(code), upper),
    ensures
        item_from_nodes_spec(ns) == Some((code, item_value_spec(ns))),
{
    let b = vstd::utf8::encode_utf8(code);
    lemma_hex_text_bytes(b, upper);
    law_decode_hex_round_trip(b, upper);
    lemma_lossy_text_of_encoding(code);
}

/// Why an `<item>` block was rejected.
#[derive(Debug)]
pub enum ItemError {
    /// The block is not well-formed XML.
    Xml,
    /// The code is not hex.
    Hex,
}

/// A decoded `<item>`: its code and its value, if any.
pub struct Item {
    pub code: String,
    pub value: Option<Vec<u8>>,
}

/// The view of an item.
pub open spec fn item_view(item: Item) -> (Seq<char>, Option<Seq<u8>>) {
    (item.code@, match item.value {
        Some(v) => Some(v@),
        None => None,
    })
}

/// Decodes the nodes of a parsed `<item>` block.
pub fn parse_item_nodes(nodes: &Vec<XmlNode>) -> (r: Result<Item, ItemError>)
    ensures
        match r {
            Ok(item) => item_from_nodes_spec(nodes_view(nodes@)) == Some(item_view(item)),
            Err(e) => item_from_nodes_spec(nodes_view(nodes@)) is None && e is Hex,
        },
{
    let ghost ns = nodes_view(nodes@);
    let code_at = find_named(nodes, "code");
    let code_hex: String = match code_at {
        Some(i) => match &nodes[i].text {
            Some(t) => t.clone(),
            None => String::new(),
        },
        None => String::new(),
    };
    assert(code_hex@ == item_code_hex_spec(ns));
    let code_bytes = match decode_hex(code_hex.as_str().as_bytes()) {
        Ok(b) => b,
        Err(_) => {
            return Err(ItemError::Hex);
        },
    };
    let code = utf8_lossy(code_bytes.as_slice());
    let data_at = find_named(nodes, "data");
    let value: Option<Vec<u8>> = match data_at {
        None => None,
        Some(i) => match &nodes[i].text {
            None => None,
            Some(t) => {
                let chars = chars_of(t.as_str());
                let content_chars = trim(chars.as_slice());
                let content = string_from_chars(content_chars.as_slice());
                if content_chars.len() == 0 {
                    None
                } else {
                    let is_base64 = match attribute(&nodes[i], "encoding") {
                        Some(e) => {
                            let ec = chars_of(e.as_str());
                            chars_eq_str(ec.as_slice(), "base64")
                        },
                        None => false,
                    };
                    let bytes = content.as_str().as_bytes();
                    if is_base64 {
                        base64_decode(bytes)
                    } else {
                        Some(vstd::slice::slice_to_vec(bytes))
                    }
                }
            },
        },
    };
    assert(match value {
        Some(v) => Some(v@),
        None => None::<Seq<u8>>,
    } == item_value_spec(ns));
    Ok(Item { code, value })
}

/// Parses one `<item>…</item>` block.
pub fn parse_item_xml(item_xml: &str) -> (r: Result<Item, ItemError>)
    ensures
        match r {
            Ok(item) => parse_item_spec(item_xml@) == Some(item_view(item)),
            Err(_) => parse_item_spec(item_xml@) is None,
        },
{
    match parse_xml(item_xml) {
        Ok(nodes) => parse_item_nodes(&nodes),
        Err(_) => Err(ItemError::Xml),
    }
}

} // verus!

verus! {

/// Where the first complete `<item>…</item>` block of a buffer starts and ends.
pub open spec fn next_item_spec(buf: Seq<char>) -> Option<(int, int)> {
    match find_from(buf, "<item>"@, 0) {
        None => None,
        Some(start) => match find_from(buf, "</item>"@, start as nat) {
            None => None,
            Some(close) => Some((start, close + 7)),
        },
    }
}

/// A found `<item>` block lies inside the buffer and is not empty.
pub proof fn lemma_next_item_bounds(buf: Seq<char>)
    ensures
        next_item_spec(buf) matches Some((start, end)) ==> 0 <= start < end <= buf.len(),
{
    reveal_strlit("</item>");
    lemma_find_from_found(buf, "<item>"@, 0);
    if let Some(start) = find_from(buf, "<item>"@, 0) {
        lemma_find_from_found(buf, "</item>"@, start as nat);
    }
}

/// The complete `<item>` blocks of a buffer, in order, and what is left after the last.
pub open spec fn split_items_spec(buf: Seq<char>) -> (Seq<Seq<char>>, Seq<char>)
    decreases buf.len(),
{
    match next_item_spec(buf) {
        None => (Seq::empty(), buf),
        Some((start, end)) => {
            proof {
                lemma_next_item_bounds(buf);
            }
            let rest = split_items_spec(buf.skip(end));
            (seq![buf.subrange(start, end)] + rest.0, rest.1)
        },
    }
}

/// Metadata values staged until title and artist have both arrived.
pub struct StagedView {
    pub artist: Option<Seq<u8>>,
    pub title: Option<Seq<u8>>,
    pub picture: Option<Seq<u8>>,
    pub end_marker: Option<Seq<u8>>,
}

/// Nothing staged.
pub open spec fn empty_staged() -> StagedView {
    StagedView { artist: None, title: None, picture: None, end_marker: None }
}

/// Stages a value under its metadata code.
pub open spec fn stage_spec(st: StagedView, code: Seq<char>, v: Seq<u8>) -> StagedView {
    if code == "asar"@ {
        StagedView { artist: Some(v), ..st }
    } else if code == "minm"@ {
        StagedView { title: Some(v), ..st }
    } else if code == "PICT"@ {
        StagedView { picture: Some(v), ..st }
    } else if code == "mden"@ {
        StagedView { end_marker: Some(v), ..st }
    } else {
        st
    }
}

/// The staged values, the transport changes so far, and whether title and artist have
/// been seen together.
pub type ProcessAcc = (StagedView, Seq<PlayerState>, bool);

/// The effect of one `<item>` block: unparsable blocks and unknown codes are skipped,
/// transport codes are reported, `mdst` starts a new track, and metadata values are staged.
pub open spec fn item_step_spec(acc: ProcessAcc, item: Seq<char>) -> ProcessAcc {
    let (st, transports, commit) = acc;
    match parse_item_spec(item) {
        None => acc,
        Some((code, value)) => if !is_transport_code(code) && !is_metadata_code(code) {
            acc
        } else {
            match transport_state_spec(code) {
                Some(s) => (st, transports.push(s), commit),
                None => if code == "mdst"@ {
                    (empty_staged(), transports, commit)
                } else {
                    match value {
                        Some(v) => {
                            let st2 = stage_spec(st, code, v);
                            (st2, transports, commit || (st2.title is Some && st2.artist is Some))
                        },
                        None => acc,
                    }
                }
            }
        },
    }
}

/// The effect of a run of `<item>` blocks, in order.
pub open spec fn process_items_spec(st: StagedView, items: Seq<Seq<char>>) -> ProcessAcc
    decreases items.len(),
{
    if items.len() == 0 {
        (st, Seq::empty(), false)
    } else {
        item_step_spec(process_items_spec(st, items.drop_last()), items.last())
    }
}

/// The track id AirPlay metadata is given: `airplay-{artist}-{title}`.
pub open spec fn airplay_songid_spec(artist: Seq<char>, title: Seq<char>) -> Seq<char> {
    "airplay-"@ + artist + "-"@ + title
}

/// A staged text value: its lossy UTF-8 decoding, or empty.
pub open spec fn text_value_spec(v: Option<Seq<u8>>) -> Seq<char> {
    match v {
        Some(b) => lossy_text_spec(b),
        None => Seq::empty(),
    }
}

/// A track whose title and artist have arrived.
pub struct AirplayTrack {
    pub artist: String,
    pub title: String,
    pub songid: String,
    /// The staged picture bytes, to be saved where `pict_staging_file` says.
    pub picture: Option<Vec<u8>>,
}

/// What one pass over the buffer found: transport changes, in order, and then possibly a
/// track to commit.
pub struct BufferOutcome {
    pub transports: Vec<PlayerState>,
    pub commit: Option<AirplayTrack>,
}

/// The staged values.
pub struct StagedTrackInfo {
    artist: Option<Vec<u8>>,
    title: Option<Vec<u8>>,
    picture: Option<Vec<u8>>,
    end_marker: Option<Vec<u8>>,
}

/// The view of optional bytes.
pub open spec fn bytes_view(o: Option<Vec<u8>>) -> Option<Seq<u8>> {
    match o {
        Some(v) => Some(v@),
        None => None,
    }
}

fn clone_bytes(o: &Option<Vec<u8>>) -> (r: Option<Vec<u8>>)
    ensures
        bytes_view(r) == bytes_view(*o),
{
    match o {
        Some(v) => Some(v.clone()),
        None => None,
    }
}

impl View for StagedTrackInfo {
    type V = StagedView;

    closed spec fn view(&self) -> StagedView {
        StagedView {
            artist: bytes_view(self.artist),
            title: bytes_view(self.title),
            picture: bytes_view(self.picture),
            end_marker: bytes_view(self.end_marker),
        }
    }
}

/// Reads Shairport Sync's metadata stream: text accumulates in a buffer, and complete
/// `<item>` blocks are taken out of it and decoded.
pub struct ShairportReader {
    buffer: Vec<char>,
    staged: StagedTrackInfo,
}

impl ShairportReader {
    /// The text not consumed yet.
    pub closed spec fn buffer_view(&self) -> Seq<char> {
        self.buffer@
    }

    /// The staged metadata values.
    pub closed spec fn staged_view(&self) -> StagedView {
        self.staged@
    }

    /// A reader with nothing buffered or staged.
    pub fn new() -> (r: ShairportReader)
        ensures
            r.buffer_view() == Seq::<char>::empty(),
            r.staged_view() == empty_staged(),
    {
        ShairportReader {
            buffer: Vec::new(),
            staged: StagedTrackInfo { artist: None, title: None, picture: None, end_marker: None },
        }
    }

    /// Appends a chunk read from the pipe, decoded as lossy UTF-8.
    pub fn push_chunk(&mut self, chunk: &[u8])
        ensures
            final(self).buffer_view() == old(self).buffer_view() + lossy_text_spec(chunk@),
            final(self).staged_view() == old(self).staged_view(),
    {
        let text = utf8_lossy(chunk);
        push_str(&mut self.buffer, text.as_str());
    }

    /// Drops the buffered text (after the pipe was lost); staged values are kept.
    pub fn clear_buffer(&mut self)
        ensures
            final(self).buffer_view() == Seq::<char>::empty(),
            final(self).staged_view() == old(self).staged_view(),
    {
        self.buffer = Vec::new();
    }

    fn stage(&mut self, code: &str, v: Vec<u8>)
        ensures
            final(self).staged_view() == stage_spec(old(self).staged_view(), code@, v@),
            final(self).buffer_view() == old(self).buffer_view(),
    {
        let c = chars_of(code);
        if chars_eq_str(c.as_slice(), "asar") {
            self.staged.artist = Some(v);
        } else if chars_eq_str(c.as_slice(), "minm") {
            self.staged.title = Some(v);
        } else if chars_eq_str(c.as_slice(), "PICT") {
            self.staged.picture = Some(v);
        } else if chars_eq_str(c.as_slice(), "mden") {
            self.staged.end_marker = Some(v);
        }
    }
}

} // verus!

verus! {

fn is_known_code(code: &[char]) -> (r: bool)
    ensures
        r == (is_transport_code(code@) || is_metadata_code(code@)),
{
    chars_eq_str(code, "prsm") || chars_eq_str(code, "paus") || chars_eq_str(code, "pend")
        || chars_eq_str(code, "asar") || chars_eq_str(code, "minm") || chars_eq_str(code, "PICT")
        || chars_eq_str(code, "mden") || chars_eq_str(code, "mdst")
}

fn text_value(v: &Option<Vec<u8>>) -> (r: String)
    ensures
        r@ == text_value_spec(bytes_view(*v)),
{
    match v {
        Some(b) => utf8_lossy(b.as_slice()),
        None => String::new(),
    }
}

impl ShairportReader {
    fn apply_item(&mut self, item: &[char], transports: &mut Vec<PlayerState>, commit: &mut bool)
        ensures
            (final(self).staged_view(), final(transports)@, *final(commit)) == item_step_spec(
                (old(self).staged_view(), old(transports)@, *old(commit)),
                item@,
            ),
            final(self).buffer_view() == old(self).buffer_view(),
    {
        let item_str = string_from_chars(item);
        match parse_item_xml(item_str.as_str()) {
            Ok(parsed) => {
                let code = chars_of(parsed.code.as_str());
                if !is_known_code(code.as_slice()) {
                    return ;
                }
                match transport_state(parsed.code.as_str()) {
                    Some(s) => {
                        transports.push(s);
                    },
                    None => {
                        if chars_eq_str(code.as_slice(), "mdst") {
                            self.staged = StagedTrackInfo {
                                artist: None,
                                title: None,
                                picture: None,
                                end_marker: None,
                            };
                        } else {
                            match parsed.value {
                                Some(v) => {
                                    self.stage(parsed.code.as_str(), v);
                                    if self.staged.title.is_some() && self.staged.artist.is_some() {
                                        *commit = true;
                                    }
                                },
                                None => {},
                            }
                        }
                    },
                }
            },
            Err(_) => {},
        }
    }

    /// Takes every complete `<item>` block out of the buffer, in order, and applies it:
    /// transport codes are reported, metadata values are staged, and once title and artist
    /// have both been staged the track is committed from what is staged at the end.
    pub fn process_buffer(&mut self) -> (r: BufferOutcome)
        ensures
            ({
                let (items, rest) = split_items_spec(old(self).buffer_view());
                let (st, transports, commit) = process_items_spec(old(self).staged_view(), items);
                &&& final(self).buffer_view() == rest
                &&& final(self).staged_view() == st
                &&& r.transports@ == transports
                &&& commit ==> (r.commit matches Some(t) && t.artist@ == text_value_spec(st.artist)
                    && t.title@ == text_value_spec(st.title) && t.songid@ == airplay_songid_spec(
                    text_value_spec(st.artist),
                    text_value_spec(st.title),
                ) && bytes_view(t.picture) == st.picture)
                &&& !commit ==> r.commit is None
            }),
    {
        let ghost buf0 = self.buffer@;
        let ghost st0 = self.staged@;
        let ghost mut done: Seq<Seq<char>> = Seq::empty();
        let mut transports: Vec<PlayerState> = Vec::new();
        let mut commit = false;
        let open = chars_of("<item>");
        let close = chars_of("</item>");
        proof {
            reveal_strlit("</item>");
        }
        assert(done + split_items_spec(buf0).0 =~= split_items_spec(buf0).0);
        loop
            invariant
                open@ == "<item>"@,
                close@ == "</item>"@,
                close@.len() == 7,
                split_items_spec(buf0) == (done + split_items_spec(self.buffer@).0,
                split_items_spec(self.buffer@).1),
                process_items_spec(st0, done) == (self.staged@, transports@, commit),
            ensures
                next_item_spec(self.buffer@) is None,
                split_items_spec(buf0) == (done + split_items_spec(self.buffer@).0,
                split_items_spec(self.buffer@).1),
                process_items_spec(st0, done) == (self.staged@, transports@, commit),
            decreases self.buffer@.len(),
        {
            let start = match find(self.buffer.as_slice(), open.as_slice(), 0) {
                Some(s) => s,
                None => {
                    break ;
                },
            };
            let close_at = match find(self.buffer.as_slice(), close.as_slice(), start) {
                Some(c) => c,
                None => {
                    break ;
                },
            };
            proof {
                lemma_find_from_found(self.buffer@, close@, start as nat);
                assert(close_at + 7 <= self.buffer@.len());
            }
            let buf_len = self.buffer.len();
            let end = close_at + 7;
            let item = subrange(self.buffer.as_slice(), start, end);
            let rest = subrange(self.buffer.as_slice(), end, buf_len);
            let ghost buf = self.buffer@;
            proof {
                assert(rest@ =~= buf.skip(end as int));
                assert(next_item_spec(buf) == Some((start as int, end as int)));
                assert(split_items_spec(buf) == (seq![item@] + split_items_spec(rest@).0,
                split_items_spec(rest@).1));
                assert(done.push(item@) + split_items_spec(rest@).0 =~= done + (seq![item@]
                    + split_items_spec(rest@).0));
            }
            self.buffer = rest;
            self.apply_item(item.as_slice(), &mut transports, &mut commit);
            proof {
                let prev = done;
                done = done.push(item@);
                assert(done.drop_last() =~= prev);
            }
        }
        let ghost (items, rest) = split_items_spec(buf0);
        proof {
            assert(split_items_spec(self.buffer@) == (Seq::<Seq<char>>::empty(), self.buffer@));
            assert(done + Seq::<Seq<char>>::empty() =~= done);
        }
        let commit_track = if commit {
            let artist = text_value(&self.staged.artist);
            let title = text_value(&self.staged.title);
            let mut id = chars_of("airplay-");
            push_str(&mut id, artist.as_str());
            push_str(&mut id, "-");
            push_str(&mut id, title.as_str());
            Some(
                AirplayTrack {
                    artist,
                    title,
                    songid: string_from_chars(id.as_slice()),
                    picture: clone_bytes(&self.staged.picture),
                },
            )
        } else {
            None
        };
        BufferOutcome { transports, commit: commit_track }
    }
}

} // verus!

verus! {

/// After a pass over the buffer no complete `<item>` block is left in it.
pub proof fn law_no_complete_item_left(buf: Seq<char>)
    ensures
        next_item_spec(split_items_spec(buf).1) is None,
    decreases buf.len(),
{
    lemma_next_item_bounds(buf);
    if let Some((start, end)) = next_item_spec(buf) {
        law_no_complete_item_left(buf.skip(end));
    }
}

/// Where a staged AirPlay picture is saved, and the `file://` URL it is then known by.
pub struct PictFile {
    pub path: String,
    pub url: String,
}

/// The staging file of a track's picture: its track id's MD5 in hex, then `.tmp`.
pub open spec fn pict_path_spec(staging_dir: Seq<char>, songid: Seq<char>) -> Seq<char> {
    crate::text::path_join_spec(staging_dir, crate::art::md5_hex_spec(songid) + ".tmp"@)
}

/// Where a track's picture is staged, and its `file://` URL.
pub fn pict_staging_file(staging_dir: &str, songid: &str) -> (r: PictFile)
    ensures
        r.path@ == pict_path_spec(staging_dir@, songid@),
        r.url@ == "file://"@ + pict_path_spec(staging_dir@, songid@),
{
    let mut name = crate::art::md5_hex(songid);
    push_str(&mut name, ".tmp");
    let path = crate::text::path_join(staging_dir, name.as_slice());
    let mut url = chars_of("file://");
    push_str(&mut url, path.as_str());
    PictFile { path, url: string_from_chars(url.as_slice()) }
}

/// The metadata a committed AirPlay track is reported with (no album; the cover is the
/// saved picture's URL, when it could be saved).
pub fn airplay_metadata(track: &AirplayTrack, cover_url: Option<String>) -> (r: Metadata)
    ensures
        r@ == (MetadataView {
            player_state: None,
            songid: Some(track.songid@),
            title: Some(track.title@),
            artist: Some(track.artist@),
            album: None,
            cover_url: opt_view(cover_url),
        }),
{
    Metadata {
        player_state: None,
        songid: Some(track.songid.clone()),
        title: Some(track.title.clone()),
        artist: Some(track.artist.clone()),
        album: None,
        cover_url,
    }
}

} // verus!

verus! {

/// An `mdst` item starts a new track: afterwards nothing is staged (no artist, title,
/// picture or end marker), and the transport changes and the commit flag are kept.
pub proof fn law_track_start_clears_staged(acc: ProcessAcc, item: Seq<char>)
    requires
        parse_item_spec(item) matches Some((code, _)) && code == "mdst"@,
    ensures
        ({
            let r = item_step_spec(acc, item);
            &&& r.0.artist is None
            &&& r.0.title is None
            &&& r.0.picture is None
            &&& r.0.end_marker is None
            &&& r.1 == acc.1
            &&& r.2 == acc.2
        }),
{
    reveal_strlit("mdst");
    reveal_strlit("prsm");
    reveal_strlit("pend");
    reveal_strlit("paus");
    assert("mdst"@[1] != "prsm"@[1]);
    assert("mdst"@[0] != "pend"@[0]);
    assert("mdst"@[0] != "paus"@[0]);
}

/// A transport item reports its state after those already reported and leaves the staged
/// values and the commit flag alone.
pub proof fn law_transport_item_is_reported(acc: ProcessAcc, item: Seq<char>)
    requires
        parse_item_spec(item) matches Some((code, _)) && transport_state_spec(code) is Some,
    ensures
        ({
            let code = (parse_item_spec(item)->0).0;
            let r = item_step_spec(acc, item);
            &&& r.0 == acc.0
            &&& r.1 == acc.1.push(transport_state_spec(code)->0)
            &&& r.2 == acc.2
        }),
{
}

/// A metadata item with a value stages that value under its code, replacing what was staged
/// there and keeping the other staged values; it commits once title and artist are staged.
pub proof fn law_metadata_item_is_staged(acc: ProcessAcc, item: Seq<char>)
    requires
        parse_item_spec(item) matches Some((code, Some(_))) && (code == "asar"@ || code == "minm"@
            || code == "PICT"@ || code == "mden"@),
    ensures
        ({
            let (code, value) = parse_item_spec(item)->0;
            let v = value->0;
            let r = item_step_spec(acc, item);
            &&& r.0.artist == (if code == "asar"@ { Some(v) } else { acc.0.artist })
            &&& r.0.title == (if code == "minm"@ { Some(v) } else { acc.0.title })
            &&& r.0.picture == (if code == "PICT"@ { Some(v) } else { acc.0.picture })
            &&& r.0.end_marker == (if code == "mden"@ { Some(v) } else { acc.0.end_marker })
            &&& r.1 == acc.1
            &&& r.2 == (acc.2 || (r.0.title is Some && r.0.artist is Some))
        }),
{
    reveal_strlit("mdst");
    reveal_strlit("prsm");
    reveal_strlit("pend");
    reveal_strlit("paus");
    reveal_strlit("asar");
    reveal_strlit("minm");
    reveal_strlit("PICT");
    reveal_strlit("mden");
    let code = (parse_item_spec(item)->0).0;
    assert(transport_state_spec(code) is None) by {
        if code == "asar"@ {
            assert("asar"@[0] != "prsm"@[0] && "asar"@[0] != "pend"@[0] && "asar"@[1] != "paus"@[1]);
        } else if code == "minm"@ {
            assert("minm"@[0] != "prsm"@[0] && "minm"@[0] != "pend"@[0] && "minm"@[0] != "paus"@[0]);
        } else if code == "PICT"@ {
            assert("PICT"@[0] != "prsm"@[0] && "PICT"@[0] != "pend"@[0] && "PICT"@[0] != "paus"@[0]);
        } else {
            assert("mden"@[0] != "prsm"@[0] && "mden"@[0] != "pend"@[0] && "mden"@[0] != "paus"@[0]);
        }
    }
    assert(code != "mdst"@) by {
        if code == "asar"@ {
            assert("asar"@[0] != "mdst"@[0]);
        } else if code == "minm"@ {
            assert("minm"@[1] != "mdst"@[1]);
        } else if code == "PICT"@ {
            assert("PICT"@[0] != "mdst"@[0]);
        } else {
            assert("mden"@[2] != "mdst"@[2]);
        }
    }
    if code == "asar"@ {
        assert("asar"@ != "minm"@ && "asar"@ != "PICT"@ && "asar"@ != "mden"@) by {
            assert("asar"@[0] != "minm"@[0] && "asar"@[0] != "PICT"@[0] && "asar"@[0] != "mden"@[0]);
        }
    } else if code == "minm"@ {
        assert("minm"@ != "PICT"@ && "minm"@ != "mden"@) by {
            assert("minm"@[0] != "PICT"@[0] && "minm"@[1] != "mden"@[1]);
        }
    } else if code == "PICT"@ {
        assert("PICT"@ != "mden"@) by {
            assert("PICT"@[0] != "mden"@[0]);
        }
    }
}

} // verus!

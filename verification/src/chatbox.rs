//! The chatbox line that mirrors the player's state, and its OSC packet.

use vstd::prelude::*;
use vstd::utf8::{encode_utf8, is_ascii_chars, is_ascii_chars_encode_utf8};
use crate::media::{append_joined, views, joined, comma_space, text_or, PlaybackStatus, PlayerProgress, ProgressView};
use crate::wire::{arg_payload, encode_message, osc_message_bytes, osc_padded, osc_padded_is_aligned, type_tag, type_tags, payloads, OscArg, OscMessage};

verus! {

/// What `{:?}` prints for a string slice: std's `Debug` formatting, which
/// quotes the text and escapes some of its characters.
pub uninterp spec fn debug_text(s: Seq<char>) -> Seq<char>;

/// Formats a string slice with std's `Debug` implementation (`{:?}`).
/// The result is named by `debug_text`; nothing more is stated of it.
#[verifier::external_body]
fn debug_str(s: &str) -> (r: String)
    ensures
        r@ == debug_text(s@),
{
    format!("{:?}", s)
}

/// The `Debug` texts of the items, in order.
pub open spec fn debug_texts_spec(items: Seq<Seq<char>>) -> Seq<Seq<char>> {
    items.map_values(|s: Seq<char>| debug_text(s))
}

/// A bracketed list: `[`, the item texts separated by ", ", then `]`; with
/// the items' `Debug` texts it is what `{:?}` prints for a list of strings.
pub open spec fn bracketed(texts: Seq<Seq<char>>) -> Seq<char> {
    seq!['['] + joined(texts, comma_space()) + seq![']']
}

/// The mark before the title: a play sign while playing, a pause sign
/// otherwise.
pub open spec fn status_mark(status: PlaybackStatus) -> Seq<char> {
    match status {
        PlaybackStatus::Playing => seq!['\u{25B6}', '\u{FE0E}'],
        _ => seq!['\u{23F8}'],
    }
}

/// `filled` full blocks, then light shade up to a width of ten.
pub open spec fn progress_bar(filled: nat) -> Seq<char> {
    Seq::new(filled, |i: int| '\u{2588}') + Seq::new(
        (if filled < 10 { 10 - filled } else { 0 }) as nat,
        |i: int| '\u{2592}',
    )
}

pub open spec fn nothing_text() -> Seq<char> {
    seq!['n', 'o', 't', 'h', 'i', 'n', 'g']
}

pub open spec fn footer_text() -> Seq<char> {
    seq!['\n', '\u{2764}', '\u{FE0F}', ' ', 'M', 'P', 'R', 'I', 'S']
}

/// The artists of a snapshot; none when the player gives none.
pub open spec fn artists_of(p: ProgressView) -> Seq<Seq<char>> {
    match p.artists {
        Some(a) => a,
        None => Seq::empty(),
    }
}

/// The chatbox line for a snapshot, given the text of each artist and
/// `filled` full cells of the progress bar:
/// `♪ <mark><title> [<album>] by [<artists>] \n<bar>\n❤️ MPRIS`.
pub open spec fn chatbox_line(p: ProgressView, artist_texts: Seq<Seq<char>>, filled: nat) -> Seq<char> {
    seq!['\u{266A}', ' '] + status_mark(p.status) + text_or(p.title, nothing_text())
        + seq![' ', '['] + text_or(p.album_name, Seq::empty()) + seq![']', ' ', 'b', 'y', ' ']
        + bracketed(artist_texts) + seq![' ', '\n'] + progress_bar(filled) + footer_text()
}

/// The chatbox line for a snapshot: the artists appear as `{:?}` prints
/// their list.
pub open spec fn chatbox_text_spec(p: ProgressView, filled: nat) -> Seq<char> {
    chatbox_line(p, debug_texts_spec(artists_of(p)), filled)
}

/// The OSC address of the chatbox input.
pub open spec fn chatbox_address() -> Seq<char> {
    seq!['/', 'c', 'h', 'a', 't', 'b', 'o', 'x', '/', 'i', 'n', 'p', 'u', 't']
}

/// The `Debug` text of each item, as `{:?}` prints it.
pub fn debug_texts(items: &Vec<String>) -> (texts: Vec<String>)
    ensures
        texts@.len() == items@.len(),
        forall|k: int| 0 <= k < items@.len() ==> #[trigger] texts@[k]@ == debug_text(items@[k]@),
{
    let mut texts: Vec<String> = Vec::new();
    let n = items.len();
    let mut i: usize = 0;
    while i < n
        invariant
            n == items@.len(),
            i <= n,
            texts@.len() == i,
            forall|k: int| 0 <= k < i ==> #[trigger] texts@[k]@ == debug_text(items@[k]@),
        decreases n - i,
    {
        texts.push(debug_str(items[i].as_str()));
        i = i + 1;
    }
    texts
}

/// Appends the progress bar with `filled` full cells.
fn append_bar(out: &mut String, filled: usize)
    ensures
        final(out)@ == old(out)@ + progress_bar(filled as nat),
{
    let ghost start = out@;
    proof {
        reveal_strlit("\u{2588}");
        reveal_strlit("\u{2592}");
    }
    let mut i: usize = 0;
    while i < filled
        invariant
            i <= filled,
            "\u{2588}"@ == seq!['\u{2588}'],
            out@ == start + Seq::new(i as nat, |k: int| '\u{2588}'),
        decreases filled - i,
    {
        out.append("\u{2588}");
        i = i + 1;
        assert(out@ =~= start + Seq::new(i as nat, |k: int| '\u{2588}'));
    }
    let ghost full = out@;
    let mut j: usize = i;
    while j < 10
        invariant
            i == filled,
            i <= j,
            j <= 10 || j == i,
            "\u{2592}"@ == seq!['\u{2592}'],
            out@ == full + Seq::new((j - i) as nat, |k: int| '\u{2592}'),
        decreases 10 - j,
    {
        out.append("\u{2592}");
        j = j + 1;
        assert(out@ =~= full + Seq::new((j - i) as nat, |k: int| '\u{2592}'));
    }
    assert(out@ =~= start + progress_bar(filled as nat));
}

/// The chatbox line for a snapshot, given the text that stands for each
/// artist and `filled` full cells of the progress bar.
pub fn compose_chatbox_line(data: &PlayerProgress, artist_texts: &Vec<String>, filled: usize) -> (text: String)
    ensures
        text@ == chatbox_line(data@, views(artist_texts@), filled as nat),
{
    proof {
        reveal_strlit("\u{266A} ");
        reveal_strlit("\u{25B6}\u{FE0E}");
        reveal_strlit("\u{23F8}");
        reveal_strlit("nothing");
        reveal_strlit(" [");
        reveal_strlit("] by ");
        reveal_strlit("[");
        reveal_strlit(", ");
        reveal_strlit("]");
        reveal_strlit(" \n");
        reveal_strlit("\n\u{2764}\u{FE0F} MPRIS");
        assert(", "@ =~= comma_space());
    }
    let mut out = String::new();
    out.append("\u{266A} ");
    match data.status {
        PlaybackStatus::Playing => out.append("\u{25B6}\u{FE0E}"),
        _ => out.append("\u{23F8}"),
    }
    assert(out@ =~= seq!['\u{266A}', ' '] + status_mark(data@.status));
    match &data.title {
        Some(t) => out.append(t.as_str()),
        None => out.append("nothing"),
    }
    assert(out@ =~= seq!['\u{266A}', ' '] + status_mark(data@.status) + text_or(data@.title, nothing_text()));
    let ghost head = out@;
    out.append(" [");
    match &data.album_name {
        Some(a) => out.append(a.as_str()),
        None => {},
    }
    out.append("] by ");
    assert(out@ =~= head + seq![' ', '['] + text_or(data@.album_name, Seq::empty()) + seq![']', ' ', 'b', 'y', ' ']);
    let ghost mid = out@;
    out.append("[");
    append_joined(&mut out, artist_texts, ", ");
    out.append("]");
    assert(out@ =~= mid + bracketed(views(artist_texts@)));
    let ghost tail = out@;
    out.append(" \n");
    append_bar(&mut out, filled);
    out.append("\n\u{2764}\u{FE0F} MPRIS");
    assert(out@ =~= tail + seq![' ', '\n'] + progress_bar(filled as nat) + footer_text());
    out
}

/// The chatbox line for a snapshot with `filled` cells of the bar full;
/// the artists are listed as `{:?}` prints them.
pub fn chatbox_text(data: &PlayerProgress, filled: usize) -> (text: String)
    ensures
        text@ == chatbox_text_spec(data@, filled as nat),
{
    let texts = match &data.artists {
        Some(v) => debug_texts(v),
        None => Vec::new(),
    };
    proof {
        assert(views(texts@) =~= debug_texts_spec(artists_of(data@)));
    }
    compose_chatbox_line(data, &texts, filled)
}

/// The chatbox message for a snapshot: sent to `/chatbox/input` with the
/// line and `true` (send at once, without opening the keyboard).
pub fn chatbox_message(data: &PlayerProgress, filled: usize) -> (msg: OscMessage)
    ensures
        msg.addr@ == chatbox_address(),
        msg.args@.len() == 2,
        msg.args@[0] matches OscArg::Str(text) && text@ == chatbox_text_spec(data@, filled as nat),
        msg.args@[1] == OscArg::Bool(true),
{
    let addr = String::from_str("/chatbox/input");
    proof {
        reveal_strlit("/chatbox/input");
        assert(addr@ =~= chatbox_address());
    }
    let text = chatbox_text(data, filled);
    let mut args: Vec<OscArg> = Vec::new();
    args.push(OscArg::Str(text));
    args.push(OscArg::Bool(true));
    OscMessage { addr, args }
}

/// The OSC type tag string of the chatbox message: `,sT`.
pub open spec fn chatbox_tags() -> Seq<u8> {
    seq![0x2Cu8, 0x73u8, 0x54u8]
}

/// The OSC packet for the chatbox line of a snapshot: the address, the
/// tags `,sT` and the line, each as an OSC-string.
pub open spec fn chatbox_packet(p: ProgressView, filled: nat) -> Seq<u8> {
    osc_padded(encode_utf8(chatbox_address())) + osc_padded(chatbox_tags()) + osc_padded(
        encode_utf8(chatbox_text_spec(p, filled)),
    )
}

/// Encodes the chatbox message for a snapshot into the datagram to send.
pub fn chatbox_datagram(data: &PlayerProgress, filled: usize) -> (bytes: Vec<u8>)
    ensures
        bytes@ == chatbox_packet(data@, filled as nat),
{
    let msg = chatbox_message(data, filled);
    let bytes = encode_message(&msg);
    proof {
        let args = msg.args@;
        assert(args.drop_last().drop_last() =~= Seq::<OscArg>::empty());
        assert(args.drop_last().last() == args[0]);
        assert(type_tags(args.drop_last().drop_last()) =~= Seq::<u8>::empty());
        assert(type_tag(args[0]) == 0x73u8);
        assert(type_tags(args.drop_last()) =~= seq![0x73u8]);
        assert(seq![0x2Cu8] + type_tags(args) =~= chatbox_tags());
        assert(payloads(args.drop_last()) =~= payloads(Seq::<OscArg>::empty()) + payloads(args.drop_last()));
        assert(payloads(args) =~= osc_padded(encode_utf8(chatbox_text_spec(data@, filled as nat))));
    }
    bytes
}

/// The progress bar is `filled` full cells followed by light cells up to a
/// width of ten: never narrower than ten, and wider only when more than ten
/// cells are full.
pub proof fn progress_bar_shape(filled: nat)
    ensures
        progress_bar(filled).len() == (if filled < 10 { 10 } else { filled }),
        forall|i: int| 0 <= i < filled ==> progress_bar(filled)[i] == '\u{2588}',
        forall|i: int| filled <= i < progress_bar(filled).len() ==> progress_bar(filled)[i] == '\u{2592}',
{
}

/// The layout of the chatbox line, piece by piece: `♪ `, then the play sign
/// while playing and the pause sign otherwise, then the title (and
/// "nothing" only when there is no title, whatever the album), then ` [`,
/// the album (empty when there is none), `] by `, the bracketed artist
/// texts, ` \n`, the progress bar, and `\n❤️ MPRIS` to end. The title
/// stands right after the mark and the album right after ` [`.
pub proof fn chatbox_line_layout(p: ProgressView, artist_texts: Seq<Seq<char>>, filled: nat)
    ensures
        ({
            let line = chatbox_line(p, artist_texts, filled);
            let mark = if p.status == PlaybackStatus::Playing {
                seq!['\u{25B6}', '\u{FE0E}']
            } else {
                seq!['\u{23F8}']
            };
            let title = match p.title {
                Some(t) => t,
                None => seq!['n', 'o', 't', 'h', 'i', 'n', 'g'],
            };
            let album = match p.album_name {
                Some(a) => a,
                None => Seq::<char>::empty(),
            };
            let head = seq!['\u{266A}', ' '] + mark;
            let t1: int = head.len() as int + title.len();
            &&& line == head + title + seq![' ', '['] + album + seq![']', ' ', 'b', 'y', ' '] + (seq!['[']
                + joined(artist_texts, seq![',', ' ']) + seq![']']) + seq![' ', '\n'] + progress_bar(filled)
                + seq!['\n', '\u{2764}', '\u{FE0F}', ' ', 'M', 'P', 'R', 'I', 'S']
            &&& line.subrange(0, head.len() as int) == head
            &&& line.subrange(head.len() as int, t1) == title
            &&& line.subrange(t1 + 2, t1 + 2 + album.len()) == album
        }),
{
    let line = chatbox_line(p, artist_texts, filled);
    let head = seq!['\u{266A}', ' '] + status_mark(p.status);
    let title = text_or(p.title, nothing_text());
    let album = text_or(p.album_name, Seq::empty());
    assert(comma_space() == seq![',', ' ']);
    let rest = seq![' ', '['] + album + seq![']', ' ', 'b', 'y', ' '] + bracketed(artist_texts) + seq![' ', '\n']
        + progress_bar(filled) + footer_text();
    assert(line =~= head + title + rest);
    let t1: int = head.len() as int + title.len();
    assert(line.subrange(0, head.len() as int) =~= head);
    assert(line.subrange(head.len() as int, t1) =~= title);
    assert(line.subrange(t1 + 2, t1 + 2 + album.len()) =~= album);
}

/// The chatbox packet is exactly the OSC encoding of the message to
/// `/chatbox/input` with the line and `true`, whatever the playback status:
/// it starts with the address `/chatbox/input` and two NULs, then the type
/// tags `,sT` and a NUL.
pub proof fn chatbox_packet_is_message(p: ProgressView, filled: nat, text: String)
    requires
        text@ == chatbox_text_spec(p, filled),
    ensures
        chatbox_packet(p, filled) == osc_message_bytes(
            chatbox_address(),
            seq![OscArg::Str(text), OscArg::Bool(true)],
        ),
        chatbox_packet(p, filled).subrange(0, 16) == seq![
            0x2Fu8, 0x63u8, 0x68u8, 0x61u8, 0x74u8, 0x62u8, 0x6Fu8, 0x78u8,
            0x2Fu8, 0x69u8, 0x6Eu8, 0x70u8, 0x75u8, 0x74u8, 0x00u8, 0x00u8,
        ],
        chatbox_packet(p, filled).subrange(16, 20) == seq![0x2Cu8, 0x73u8, 0x54u8, 0x00u8],
{
    let args = seq![OscArg::Str(text), OscArg::Bool(true)];
    assert(args.drop_last().drop_last() =~= Seq::<OscArg>::empty());
    assert(args.drop_last().last() == args[0]);
    assert(type_tags(args.drop_last().drop_last()) =~= Seq::<u8>::empty());
    assert(type_tags(args.drop_last()) =~= seq![0x73u8]);
    assert(seq![0x2Cu8] + type_tags(args) =~= chatbox_tags());
    assert(payloads(args.drop_last().drop_last()) =~= Seq::<u8>::empty());
    assert(arg_payload(args[0]) == osc_padded(encode_utf8(text@)));
    assert(payloads(args.drop_last()) =~= osc_padded(encode_utf8(text@)));
    assert(payloads(args) =~= osc_padded(encode_utf8(text@)));
    let addr = chatbox_address();
    assert(is_ascii_chars(addr));
    is_ascii_chars_encode_utf8(addr);
    let a = osc_padded(encode_utf8(addr));
    assert(a =~= seq![
        0x2Fu8, 0x63u8, 0x68u8, 0x61u8, 0x74u8, 0x62u8, 0x6Fu8, 0x78u8,
        0x2Fu8, 0x69u8, 0x6Eu8, 0x70u8, 0x75u8, 0x74u8, 0x00u8, 0x00u8,
    ]);
    let t = osc_padded(chatbox_tags());
    assert(t =~= seq![0x2Cu8, 0x73u8, 0x54u8, 0x00u8]);
    let packet = chatbox_packet(p, filled);
    assert(packet.subrange(0, 16) =~= a);
    assert(packet.subrange(16, 20) =~= t);
}

/// The chatbox packet is a valid OSC packet: a whole number of four-byte
/// words.
pub proof fn chatbox_packet_is_aligned(p: ProgressView, filled: nat)
    ensures
        chatbox_packet(p, filled).len() % 4 == 0,
{
    osc_padded_is_aligned(encode_utf8(chatbox_address()));
    osc_padded_is_aligned(chatbox_tags());
    osc_padded_is_aligned(encode_utf8(chatbox_text_spec(p, filled)));
}

} // verus!

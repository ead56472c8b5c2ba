//! The frames of the connection to the server: one message to a line.
use vstd::prelude::*;

verus! {

/// The byte that ends a frame.
pub const LINE_FEED: u8 = 10;

/// The byte that may stand before it.
pub const CARRIAGE_RETURN: u8 = 13;

/// The runs of bytes between the line feeds of a stream; the last run is
/// what follows the last line feed.
pub open spec fn pieces(bytes: Seq<u8>) -> Seq<Seq<u8>>
    decreases bytes.len(),
{
    if bytes.len() == 0 {
        seq![Seq::empty()]
    } else {
        let before = pieces(bytes.drop_last());
        if bytes.last() == LINE_FEED {
            before.push(Seq::empty())
        } else {
            before.drop_last().push(before.last().push(bytes.last()))
        }
    }
}

pub proof fn lemma_pieces_nonempty(bytes: Seq<u8>)
    ensures
        pieces(bytes).len() >= 1,
    decreases bytes.len(),
{
    if bytes.len() > 0 {
        lemma_pieces_nonempty(bytes.drop_last());
    }
}

/// A run of bytes without the carriage return at its end.
pub open spec fn without_return(piece: Seq<u8>) -> Seq<u8> {
    if piece.len() > 0 && piece.last() == CARRIAGE_RETURN {
        piece.drop_last()
    } else {
        piece
    }
}

/// The frames among some runs of bytes: each without its carriage return,
/// the empty ones left out.
pub open spec fn framed(runs: Seq<Seq<u8>>) -> Seq<Seq<u8>>
    decreases runs.len(),
{
    if runs.len() == 0 {
        Seq::empty()
    } else if without_return(runs.last()).len() == 0 {
        framed(runs.drop_last())
    } else {
        framed(runs.drop_last()).push(without_return(runs.last()))
    }
}

/// The frames that a stream holds whole: what stands before each of its
/// line feeds.
pub open spec fn frames(bytes: Seq<u8>) -> Seq<Seq<u8>> {
    framed(pieces(bytes).drop_last())
}

/// What a stream holds of a frame that is not yet whole: the bytes after
/// its last line feed.
pub open spec fn remainder(bytes: Seq<u8>) -> Seq<u8> {
    pieces(bytes).last()
}

pub open spec fn byte_views(list: Seq<Vec<u8>>) -> Seq<Seq<u8>> {
    Seq::new(list.len(), |i: int| list[i]@)
}

fn strip_return(piece: Vec<u8>) -> (r: Vec<u8>)
    ensures
        r@ == without_return(piece@),
{
    let mut piece = piece;
    if piece.len() > 0 && piece[piece.len() - 1] == CARRIAGE_RETURN {
        let ghost before = piece@;
        piece.pop();
        assert(piece@ =~= before.drop_last());
    }
    piece
}

/// Takes bytes that have arrived: gives the frames that are now whole, in
/// their order, and keeps what has arrived of the next one.
pub fn take_frames(buffer: &mut Vec<u8>, arrived: &[u8]) -> (r: Vec<Vec<u8>>)
    ensures
        byte_views(r@) == frames(old(buffer)@ + arrived@),
        final(buffer)@ == remainder(old(buffer)@ + arrived@),
{
    let ghost all = buffer@ + arrived@;
    let ghost mut done: Seq<Seq<u8>> = Seq::empty();
    let mut out: Vec<Vec<u8>> = Vec::new();
    let mut cur: Vec<u8> = Vec::new();
    std::mem::swap(buffer, &mut cur);
    let ghost held = cur@;
    // What was held is read again with what has arrived.
    let start = cur;
    cur = Vec::new();
    let mut i: usize = 0;
    proof {
        assert(all.take(0) =~= Seq::<u8>::empty());
        assert(done.push(cur@) =~= pieces(all.take(0)));
        assert(byte_views(out@) =~= framed(done));
    }
    while i < start.len()
        invariant
            i <= start.len(),
            start@ == held,
            all == held + arrived@,
            done.push(cur@) == pieces(all.take(i as int)),
            byte_views(out@) == framed(done),
        decreases start.len() - i,
    {
        let b = start[i];
        proof {
            assert(all.take(i + 1).drop_last() =~= all.take(i as int));
            assert(all.take(i + 1).last() == b);
            assert(done.push(cur@).drop_last() =~= done);
            assert(done.push(cur@).last() == cur@);
        }
        if b == LINE_FEED {
            let ghost before = byte_views(out@);
            let whole = strip_return(cur);
            proof {
                done = done.push(cur@);
                assert(done.drop_last() =~= pieces(all.take(i as int)).drop_last());
            }
            cur = Vec::new();
            if whole.len() > 0 {
                out.push(whole);
                assert(byte_views(out@) =~= before.push(whole@));
            }
            assert(done.push(cur@) =~= pieces(all.take(i + 1)));
        } else {
            let ghost before = cur@;
            cur.push(b);
            assert(done.push(cur@) =~= done.push(before).drop_last().push(
                done.push(before).last().push(b),
            ));
        }
        i = i + 1;
    }
    let mut k: usize = 0;
    while k < arrived.len()
        invariant
            k <= arrived.len(),
            start@ == held,
            all == held + arrived@,
            done.push(cur@) == pieces(all.take(held.len() + k)),
            byte_views(out@) == framed(done),
        decreases arrived.len() - k,
    {
        let b = arrived[k];
        let ghost n = held.len() + k;
        proof {
            assert(all.take(n + 1).drop_last() =~= all.take(n as int));
            assert(all.take(n + 1).last() == b);
            assert(done.push(cur@).drop_last() =~= done);
            assert(done.push(cur@).last() == cur@);
        }
        if b == LINE_FEED {
            let ghost before = byte_views(out@);
            let whole = strip_return(cur);
            proof {
                done = done.push(cur@);
                assert(done.drop_last() =~= pieces(all.take(n as int)).drop_last());
            }
            cur = Vec::new();
            if whole.len() > 0 {
                out.push(whole);
                assert(byte_views(out@) =~= before.push(whole@));
            }
            assert(done.push(cur@) =~= pieces(all.take(n + 1)));
        } else {
            let ghost before = cur@;
            cur.push(b);
            assert(done.push(cur@) =~= done.push(before).drop_last().push(
                done.push(before).last().push(b),
            ));
        }
        k = k + 1;
    }
    proof {
        assert(all.take(all.len() as int) =~= all);
        assert(done.push(cur@).drop_last() =~= done);
        assert(done.push(cur@).last() == cur@);
    }
    *buffer = cur;
    out
}

/// A message as it goes out: its bytes, then a carriage return and a line
/// feed.
pub fn frame_of(message: &[u8]) -> (r: Vec<u8>)
    ensures
        r@ == message@ + seq![CARRIAGE_RETURN, LINE_FEED],
{
    let mut r: Vec<u8> = Vec::new();
    let mut i: usize = 0;
    while i < message.len()
        invariant
            i <= message.len(),
            r@ == message@.take(i as int),
        decreases message.len() - i,
    {
        r.push(message[i]);
        assert(r@ =~= message@.take(i + 1));
        i = i + 1;
    }
    assert(message@.take(message.len() as int) =~= message@);
    r.push(CARRIAGE_RETURN);
    r.push(LINE_FEED);
    assert(r@ =~= message@ + seq![CARRIAGE_RETURN, LINE_FEED]);
    r
}

/// A frame that has gone out with `frame_of` comes in again as it was,
/// where it is not empty and holds no line feed and no carriage return at
/// its end; nothing is left over.
pub proof fn lemma_frame_round_trip(message: Seq<u8>)
    requires
        message.len() > 0,
        forall|i: int| 0 <= i < message.len() ==> message[i] != LINE_FEED,
        message.last() != CARRIAGE_RETURN,
    ensures
        frames(message + seq![CARRIAGE_RETURN, LINE_FEED]) == seq![message],
        remainder(message + seq![CARRIAGE_RETURN, LINE_FEED]).len() == 0,
{
    lemma_one_piece(message.push(CARRIAGE_RETURN));
    let sent = message + seq![CARRIAGE_RETURN, LINE_FEED];
    assert(sent.drop_last() =~= message.push(CARRIAGE_RETURN));
    assert(sent.last() == LINE_FEED);
    let p = pieces(sent);
    assert(p =~= seq![message.push(CARRIAGE_RETURN), Seq::empty()]);
    assert(p.drop_last() =~= seq![message.push(CARRIAGE_RETURN)]);
    assert(message.push(CARRIAGE_RETURN).drop_last() =~= message);
    assert(seq![message.push(CARRIAGE_RETURN)].drop_last() =~= Seq::<Seq<u8>>::empty());
    let one = seq![message.push(CARRIAGE_RETURN)];
    assert(one.last() == message.push(CARRIAGE_RETURN));
    assert(without_return(one.last()) == message);
    assert(framed(one.drop_last()) =~= Seq::<Seq<u8>>::empty());
    assert(framed(one) =~= seq![message]);
}

proof fn lemma_one_piece(bytes: Seq<u8>)
    requires
        forall|i: int| 0 <= i < bytes.len() ==> bytes[i] != LINE_FEED,
    ensures
        pieces(bytes) == seq![bytes],
    decreases bytes.len(),
{
    if bytes.len() > 0 {
        lemma_one_piece(bytes.drop_last());
        assert(bytes.drop_last().push(bytes.last()) =~= bytes);
        assert(seq![bytes.drop_last()].drop_last() =~= Seq::<Seq<u8>>::empty());
        assert(seq![bytes.drop_last()].last() == bytes.drop_last());
        assert(Seq::<Seq<u8>>::empty().push(bytes) =~= seq![bytes]);
    } else {
        assert(bytes =~= Seq::<u8>::empty());
    }
}

/// The kinds of message.
#[derive(Clone, Copy, Debug, PartialEq, Eq, Structural)]
pub enum MessageKind {
    Hello,
    /// A `Set` message.
    Update,
    List,
    State,
    Chat,
    Error,
    Tls,
}

/// The kind of message that a key of a frame stands for; none for a key
/// that is not known, which is passed over.
pub open spec fn kind_named(key: Seq<char>) -> Option<MessageKind> {
    if key == "Hello"@ {
        Some(MessageKind::Hello)
    } else if key == "Set"@ {
        Some(MessageKind::Update)
    } else if key == "List"@ {
        Some(MessageKind::List)
    } else if key == "State"@ {
        Some(MessageKind::State)
    } else if key == "Chat"@ {
        Some(MessageKind::Chat)
    } else if key == "Error"@ {
        Some(MessageKind::Error)
    } else if key == "TLS"@ {
        Some(MessageKind::Tls)
    } else {
        None
    }
}

pub fn message_kind(key: &str) -> (r: Option<MessageKind>)
    ensures
        r == kind_named(key@),
{
    let k = crate::text::copy_str(key);
    if crate::text::texts_equal(&k, "Hello") {
        Some(MessageKind::Hello)
    } else if crate::text::texts_equal(&k, "Set") {
        Some(MessageKind::Update)
    } else if crate::text::texts_equal(&k, "List") {
        Some(MessageKind::List)
    } else if crate::text::texts_equal(&k, "State") {
        Some(MessageKind::State)
    } else if crate::text::texts_equal(&k, "Chat") {
        Some(MessageKind::Chat)
    } else if crate::text::texts_equal(&k, "Error") {
        Some(MessageKind::Error)
    } else if crate::text::texts_equal(&k, "TLS") {
        Some(MessageKind::Tls)
    } else {
        None
    }
}

} // verus!

use std::ops::{Bound, RangeBounds};
use std::sync::Arc;

use chatroom::bounds::{resolve, IndexBound};
use chatroom::chatroom::Chatroom;
use chatroom::message::Message;
use time::OffsetDateTime;

fn bound(bound: Bound<&usize>) -> IndexBound {
    match bound {
        Bound::Included(&i) => IndexBound::Included(i),
        Bound::Excluded(&i) => IndexBound::Excluded(i),
        Bound::Unbounded => IndexBound::Unbounded,
    }
}

/// Looks a range up in the room, with the bounds written as a range of std.
fn range(room: &Chatroom, index: impl RangeBounds<usize>) -> Option<Vec<Arc<Message>>> {
    room.try_get_range(bound(index.start_bound()), bound(index.end_bound()))
}

fn make_get_demo_messages() -> Vec<Message> {
    let demo_messages: [Message; 2] = [
        Message {
            time: OffsetDateTime::UNIX_EPOCH,
            sender: "Unix".into(),
            body: "The time is 0.".into(),
        },
        Message {
            time: OffsetDateTime::UNIX_EPOCH,
            sender: "Unixish".into(),
            body: "The timer is unset.".into(),
        },
    ];
    return Vec::from(demo_messages);
}

fn make_test_room_setup() -> (Chatroom, Vec<Message>) {
    let messages = make_get_demo_messages();
    let mut room: Chatroom = Chatroom::new();
    messages.iter().for_each(|msg| {
        room.add(msg.clone());
    });
    (room, messages)
}

fn make_arc_demo_messages() -> Vec<Arc<Message>> {
    make_get_demo_messages()
        .into_iter()
        .map(|m| Arc::new(m))
        .collect()
}

#[test]
fn add_messages() {
    // first half of the test is in `test_room_setup`
    let (room, messages) = make_test_room_setup();
    let msg0 = messages[0].clone();
    let msg1 = messages[1].clone();

    assert_eq!(Some(Arc::new(msg0.clone())), room.get(0));
    assert_eq!(Some(Arc::new(msg1.clone())), room.get(1));
    assert_eq!(Some(Arc::new(msg0.clone())), room.get(0));
}

#[test]
fn get_message_array_out_of_bounds() {
    let (room, _) = make_test_room_setup();

    assert_eq!(None, room.get(1024));
}

#[test]
fn try_get_message0() {
    let (room, messages) = make_test_room_setup();
    let msg0 = messages[0].clone();

    assert_eq!(Some([Arc::new(msg0.clone())].into()), range(&room, 0..=0)); // inclusive
    assert_eq!(Some([Arc::new(msg0)].into()), range(&room, 0..1)); // exclusive
}

#[test]
fn try_get_message1() {
    let (room, messages) = make_test_room_setup();
    let msg1 = messages[1].clone();

    assert_eq!(Some([Arc::new(msg1.clone())].into()), range(&room, 1..=1)); // inclusive
    assert_eq!(Some([Arc::new(msg1)].into()), range(&room, 1..2)); // exclusive
}

#[test]
fn try_get_message_1_and_2() {
    let (room, _) = make_test_room_setup();

    assert_eq!(Some(make_arc_demo_messages()), range(&room, 0..=1)); // inclusive
    assert_eq!(Some(make_arc_demo_messages()), range(&room, 0..2)); // exclusive
}

#[test]
fn try_get_messages_with_abnormal_bounds() {
    let (room, _) = make_test_room_setup();

    assert_eq!(Some(make_arc_demo_messages()), range(&room, ..=1));
    assert_eq!(Some(make_arc_demo_messages()), range(&room, ..));

    let msg1 = make_get_demo_messages()[0].clone();
    let msg2 = make_get_demo_messages()[1].clone();
    assert_eq!(Some([Arc::new(msg1)].into()), range(&room, ..1));
    assert_eq!(Some([Arc::new(msg2)].into()), range(&room, 1..));
    // `..0` names no message. It could be read as a valid request for
    // nothing, which would give `Some` of an empty list; this room takes a
    // request that names no message for invalid.
    assert_eq!(None, range(&room, ..0));
}

#[test]
fn try_get_too_many_messages() {
    let (room, _) = make_test_room_setup();

    // inclusive
    assert_eq!(Some(make_arc_demo_messages()), range(&room, 0..=1024));
    // exclusive
    assert_eq!(Some(make_arc_demo_messages()), range(&room, 0..1024));
}

#[test]
fn try_get_messages_out_of_bounds() {
    let (room, _) = make_test_room_setup();

    // inclusive
    assert_eq!(None, range(&room, 512..=1024));
    // exclusive
    assert_eq!(None, range(&room, 512..1024));
}

#[test]
fn try_get_reversed_ranges() {
    let (room, _) = make_test_room_setup();

    assert_eq!(None, range(&room, 2..=0));
    assert_eq!(None, range(&room, 2..0));
    assert_eq!(None, range(&room, 1..0));
}

#[test]
fn try_get_empty_range() {
    let (room, _) = make_test_room_setup();

    // There are two ways to read `i..i`. As a slice of std reads it, it is
    // valid and empty: the answer would be `Some` of an empty list. As this
    // room reads it, a request that names no message is invalid: the answer
    // is `None`, as for a reversed range.
    assert_eq!(None, range(&room, 0..0));
    assert_eq!(None, range(&room, 1..1));
}

#[test]
fn try_get_empty_range_from_one_to_zero_inclusive() {
    // 1..=0 doesn't make any sense for it to be valid, yet for a slice of
    // std it is, as this shows first.
    let list = vec![5, 10, 15, 20, 25];
    let slice = &list[1..=0];
    assert_eq!(0, slice.len());

    let (room, _) = make_test_room_setup();

    // It ends where it starts, so it names no message: this room takes it
    // for invalid, where the slice gives an empty list.
    assert_eq!(None, range(&room, 1..=0));
}

#[test]
fn try_get_usize_extrema() {
    let (room, _) = make_test_room_setup();

    // does an `Inclusive` end work essentially the same as an `Unbounded` end?
    assert_eq!(
        Some(make_arc_demo_messages()),
        range(&room, usize::MIN..=usize::MAX)
    );

    // usize::MAX - 1 to not cause an overflow with a sane implementation
    assert_eq!(
        Some(make_arc_demo_messages()),
        range(&room, usize::MIN..=usize::MAX - 1)
    );
    // excluding the end should not cause an overflow with a sane implementation
    assert_eq!(
        Some(make_arc_demo_messages()),
        range(&room, usize::MIN..usize::MAX)
    );
}

#[test]
fn try_get_usize_extrema_reversed() {
    let (room, _) = make_test_room_setup();

    assert_eq!(None, range(&room, usize::MAX..=usize::MIN));
}

#[test]
fn add_reports_the_length_before() {
    let mut room = Chatroom::new();
    let messages = make_get_demo_messages();

    assert_eq!(0, room.add(messages[0].clone()));
    assert_eq!(1, room.add(messages[1].clone()));
    assert_eq!(2, room.add(messages[0].clone()));
    assert_eq!(Some(Arc::new(messages[0].clone())), room.get(2));
    assert_eq!(None, room.get(3));
}

#[test]
fn default_room_is_empty() {
    let room = Chatroom::default();

    assert_eq!(None, room.get(0));
    assert_eq!(None, range(&room, ..));
}

#[test]
fn every_lookup_finds_what_was_appended() {
    let mut room = Chatroom::new();
    let mut appended = Vec::new();
    for i in 0..40usize {
        let message = Message {
            time: OffsetDateTime::UNIX_EPOCH,
            sender: format!("sender {}", i),
            body: format!("body {}", i),
        };
        assert_eq!(i, room.add(message.clone()));
        appended.push(message);
    }

    for (i, message) in appended.iter().enumerate() {
        assert_eq!(Some(Arc::new(message.clone())), room.get(i));
    }
    assert_eq!(None, room.get(40));
}

#[test]
fn range_is_contiguous_and_in_order() {
    let mut room = Chatroom::new();
    for i in 0..10usize {
        room.add(Message {
            time: OffsetDateTime::UNIX_EPOCH,
            sender: format!("sender {}", i),
            body: format!("body {}", i),
        });
    }

    let found = range(&room, 3..7).unwrap();

    assert_eq!(4, found.len());
    for (k, handle) in found.iter().enumerate() {
        assert_eq!(format!("body {}", 3 + k), handle.body);
    }
}

#[test]
fn lookups_share_the_messages_of_the_room() {
    let (room, _) = make_test_room_setup();

    let all = range(&room, ..).unwrap();
    let first = room.get(0).unwrap();
    let second = range(&room, 1..).unwrap();

    assert!(Arc::ptr_eq(&all[0], &first));
    assert!(Arc::ptr_eq(&all[1], &second[0]));
    assert!(!Arc::ptr_eq(&all[0], &all[1]));
}

#[test]
fn same_range_twice_gives_the_same() {
    let (room, _) = make_test_room_setup();

    let once = range(&room, 0..=5);
    let again = range(&room, 0..=5);

    assert_eq!(once, again);
    assert_eq!(range(&room, 7..9), range(&room, 7..9));
}

#[test]
fn excluded_start_skips_its_index() {
    let (room, messages) = make_test_room_setup();
    let after_first = room.try_get_range(IndexBound::Excluded(0), IndexBound::Unbounded);

    assert_eq!(Some(vec![Arc::new(messages[1].clone())]), after_first);
    assert_eq!(
        None,
        room.try_get_range(IndexBound::Excluded(1), IndexBound::Unbounded)
    );
    assert_eq!(
        None,
        room.try_get_range(IndexBound::Excluded(usize::MAX), IndexBound::Unbounded)
    );
}

#[test]
fn start_at_the_end_of_the_room_is_invalid() {
    let (room, _) = make_test_room_setup();

    // The room holds two messages. A request from index 2 onward names
    // none: here it is invalid, not valid and empty.
    assert_eq!(None, range(&room, 2..));
    assert_eq!(None, range(&room, 3..));
}

#[test]
fn end_to_end_two_messages() {
    let mut room = Chatroom::new();
    let first = Message {
        time: OffsetDateTime::UNIX_EPOCH,
        sender: "Unix".into(),
        body: "The time is 0.".into(),
    };
    let second = Message {
        time: OffsetDateTime::UNIX_EPOCH,
        sender: "Unixish".into(),
        body: "The timer is unset.".into(),
    };
    room.add(first.clone());
    room.add(second.clone());

    assert_eq!(
        Some(vec![Arc::new(first.clone()), Arc::new(second.clone())]),
        range(&room, ..)
    );
    assert_eq!(Some(vec![Arc::new(first)]), range(&room, ..1));
    assert_eq!(Some(vec![Arc::new(second)]), range(&room, 1..));
}

#[test]
fn fresh_room_finds_nothing() {
    let room = Chatroom::new();

    assert_eq!(None, room.get(1024));
    assert_eq!(None, range(&room, 512..=1024));
}

#[test]
fn resolve_gives_the_half_open_interval() {
    assert_eq!(
        Some((0, 2)),
        resolve(IndexBound::Unbounded, IndexBound::Unbounded, 2)
    );
    assert_eq!(
        Some((1, 4)),
        resolve(IndexBound::Included(1), IndexBound::Included(3), 10)
    );
    assert_eq!(
        Some((2, 3)),
        resolve(IndexBound::Excluded(1), IndexBound::Excluded(3), 10)
    );
    assert_eq!(
        Some((0, 10)),
        resolve(IndexBound::Included(0), IndexBound::Included(usize::MAX), 10)
    );
    assert_eq!(
        Some((0, 10)),
        resolve(IndexBound::Included(0), IndexBound::Excluded(usize::MAX), 10)
    );
    assert_eq!(
        Some((9, 10)),
        resolve(IndexBound::Included(9), IndexBound::Included(1024), 10)
    );
}

#[test]
fn resolve_refuses_what_names_no_index() {
    assert_eq!(
        None,
        resolve(IndexBound::Unbounded, IndexBound::Unbounded, 0)
    );
    assert_eq!(
        None,
        resolve(IndexBound::Included(4), IndexBound::Excluded(4), 10)
    );
    assert_eq!(
        None,
        resolve(IndexBound::Included(usize::MAX), IndexBound::Included(0), 10)
    );
    assert_eq!(
        None,
        resolve(IndexBound::Excluded(usize::MAX), IndexBound::Unbounded, 10)
    );
    assert_eq!(
        None,
        resolve(IndexBound::Included(10), IndexBound::Unbounded, 10)
    );
    assert_eq!(
        None,
        resolve(IndexBound::Included(0), IndexBound::Included(usize::MAX), 0)
    );
}

use ribir_state::cell::BorrowState;
use ribir_state::effect::{ModifyEffect, ModifyInfo, PartialId};
use ribir_state::part_map::{Compose, FirstOfPair, SecondOfPair, SomeValue, WholeValue};
use ribir_state::writer::{PartWriter, Writer};
use ribir_state::reader::StateReader;
use ribir_state::state::{Stateful, WriteRef};

fn id(s: &str) -> PartialId {
    PartialId::new(s.to_string())
}

fn effect_sum(events: &[ModifyInfo]) -> u8 {
    events.iter().map(|e| e.effect.bits()).sum()
}

/// One writer of a pair, one for each of its fields, and a subscriber on
/// each: a field's write is heard by the pair and that field only; the
/// pair's own write by the pair only.
fn isolated_writer() {
    let mut pair = Stateful::new((1.0f64, true));
    let first = pair.part_writer(id("1."), FirstOfPair);
    let second = pair.part_writer(id("2."), SecondOfPair);
    let mut w_pair = pair.modifies();
    let mut w_first = first.modifies(&pair);
    let mut w_second = second.modifies(&pair);
    let mut notifies: Vec<&str> = vec![];
    let mut collect = |pair: &Stateful<(f64, bool)>, notifies: &mut Vec<&str>| {
        for _ in w_pair.take_events(pair) {
            notifies.push("pair");
        }
        for _ in w_first.take_events(pair) {
            notifies.push("first");
        }
        for _ in w_second.take_events(pair) {
            notifies.push("second");
        }
    };

    let mut w = first.write(&mut pair);
    w.set(&mut pair, 2.0);
    w.release(&mut pair);
    pair.run_until_stalled();
    collect(&pair, &mut notifies);
    assert_eq!(&notifies, &["pair", "first"]);
    assert_eq!(*first.read(&pair), 2.0);

    let mut w = second.write(&mut pair);
    w.set(&mut pair, false);
    w.release(&mut pair);
    pair.run_until_stalled();
    collect(&pair, &mut notifies);
    assert_eq!(&notifies, &["pair", "first", "pair", "second"]);

    let mut w = pair.write();
    w.set(&mut pair, (3.0, false));
    w.release(&mut pair);
    pair.run_until_stalled();
    collect(&pair, &mut notifies);
    assert_eq!(&notifies, &["pair", "first", "pair", "second", "pair"]);
    assert_eq!(*pair.value(), (3.0, false));
}

#[test]
fn part_state_isolated_writer() {
    isolated_writer();
}

#[test]
fn part_state_test_many() {
    for _ in 0..10 {
        isolated_writer();
    }
}

#[test]
fn reader_isolated_writer() {
    isolated_writer();
}

#[test]
fn reader_test_many() {
    for _ in 0..10 {
        isolated_writer();
    }
}

#[test]
fn map_same_with_origin() {
    let mut origin = Stateful::new((0i32, 0i32));
    let map_state = origin.part_writer(PartialId::any(), SecondOfPair);
    let mut w_origin = origin.modifies();
    let mut w_map = map_state.modifies(&origin);
    let mut track_origin = 0;
    let mut track_map = 0;

    let mut w = origin.write();
    w.value_mut(&mut origin).0 = 1;
    w.release(&mut origin);
    origin.run_until_stalled();
    track_origin += w_origin.take_events(&origin).len();
    track_map += w_map.take_events(&origin).len();
    assert_eq!(track_origin, 1);
    assert_eq!(track_map, 1);

    let mut w = map_state.write(&mut origin);
    w.set(&mut origin, 1);
    w.release(&mut origin);
    origin.run_until_stalled();
    track_origin += w_origin.take_events(&origin).len();
    track_map += w_map.take_events(&origin).len();
    assert_eq!(track_origin, 2);
    assert_eq!(track_map, 2);
}

#[test]
fn split_notify() {
    let mut origin = Stateful::new((0i32, 0i32)).include_partial_writers(true);
    let split_a = origin.part_writer(id("a"), FirstOfPair);
    let split_b = origin.part_writer(id("b"), SecondOfPair);
    let mut w_origin = origin.modifies();
    let mut w_a = split_a.modifies(&origin);
    let mut w_b = split_b.modifies(&origin);
    let both = ModifyEffect::both().bits();

    let mut w = split_a.write(&mut origin);
    w.set(&mut origin, 0);
    w.release(&mut origin);
    origin.run_until_stalled();
    assert_eq!(effect_sum(&w_origin.take_events(&origin)), both);
    assert_eq!(effect_sum(&w_a.take_events(&origin)), both);
    assert_eq!(effect_sum(&w_b.take_events(&origin)), 0);

    let mut w = split_b.write(&mut origin);
    w.set(&mut origin, 0);
    w.release(&mut origin);
    origin.run_until_stalled();
    assert_eq!(effect_sum(&w_origin.take_events(&origin)), both);
    assert_eq!(effect_sum(&w_b.take_events(&origin)), both);
    assert_eq!(effect_sum(&w_a.take_events(&origin)), 0);

    let mut w = origin.write();
    w.value_mut(&mut origin).0 = 0;
    w.release(&mut origin);
    origin.run_until_stalled();
    assert_eq!(effect_sum(&w_origin.take_events(&origin)), both);
    assert_eq!(effect_sum(&w_b.take_events(&origin)), 0);
    assert_eq!(effect_sum(&w_a.take_events(&origin)), 0);
}

#[test]
fn nested_writes_deliver_one_event_with_the_union() {
    let mut s = Stateful::new(0u32);
    let mut raw = s.raw_modifies();
    let w = s.shallow();
    let mut w = w.silent(&mut s);
    w.set(&mut s, 1);
    let mut w = w.shallow(&mut s);
    w.set(&mut s, 2);
    w.release(&mut s);
    let mut w = s.write();
    w.set(&mut s, 3);
    w.release(&mut s);
    assert_eq!(s.request_count(), 1);
    s.run_until_stalled();
    assert_eq!(s.request_count(), 0);
    let events = raw.take_events(&s);
    assert_eq!(events.len(), 1);
    assert_eq!(events[0].effect, ModifyEffect::both());
    assert_eq!(*s.value(), 3);
}

#[test]
fn unmodified_and_forgotten_writes_notify_nothing() {
    let mut s = Stateful::new(5u8);
    let mut raw = s.raw_modifies();
    let w = s.write();
    w.release(&mut s);
    let mut w = s.write();
    w.set(&mut s, 6);
    assert!(w.forget_modifies());
    assert!(!w.forget_modifies());
    w.release(&mut s);
    s.run_until_stalled();
    assert_eq!(raw.take_events(&s).len(), 0);
    assert_eq!(*s.value(), 6);
}

#[test]
fn data_subscribers_skip_shallow_writes() {
    let mut s = Stateful::new(0u8);
    let mut data = s.modifies();
    let mut raw = s.raw_modifies();
    let mut w = s.shallow();
    w.set(&mut s, 1);
    w.release(&mut s);
    s.run_until_stalled();
    assert_eq!(data.take_events(&s).len(), 0);
    let events = raw.take_events(&s);
    assert_eq!(events.len(), 1);
    assert_eq!(events[0].effect, ModifyEffect::framework_only());

    let mut w = s.silent();
    w.set(&mut s, 2);
    w.release(&mut s);
    s.run_until_stalled();
    let events = data.take_events(&s);
    assert_eq!(events.len(), 1);
    assert_eq!(events[0].effect, ModifyEffect::data_only());
}

#[test]
fn split_writer_is_independent() {
    let mut origin = Stateful::new((1i32, 2i32));
    let split = origin.split_writer(SecondOfPair);
    let mut w_origin = origin.raw_modifies();
    let mut w_split = split.raw_modifies(&origin);

    let mut w = split.write(&mut origin);
    w.set(&mut origin, 20);
    w.release(&mut origin);
    origin.run_until_stalled();
    assert_eq!(w_origin.take_events(&origin).len(), 0);
    assert_eq!(w_split.take_events(&origin).len(), 1);
    assert_eq!(*origin.value(), (1, 20));
    assert_eq!(*split.read(&origin), 20);

    let mut w = origin.write();
    w.set(&mut origin, (3, 4));
    w.release(&mut origin);
    origin.run_until_stalled();
    assert_eq!(w_origin.take_events(&origin).len(), 1);
    assert_eq!(w_split.take_events(&origin).len(), 0);
    assert_eq!(*split.read(&origin), 4);
}

#[test]
fn borrow_states_follow_guards() {
    let mut s = Stateful::new(1u8);
    assert_eq!(s.borrow_state(), BorrowState::Unborrowed);
    let g1 = s.read();
    let g2 = s.read();
    assert_eq!(s.borrow_state(), BorrowState::Shared(2));
    s.release_read(g1);
    assert_eq!(s.borrow_state(), BorrowState::Shared(1));
    s.release_read(g2);
    assert_eq!(s.borrow_state(), BorrowState::Unborrowed);
    let w = s.write();
    assert_eq!(s.borrow_state(), BorrowState::Exclusive);
    w.release(&mut s);
    assert_eq!(s.borrow_state(), BorrowState::Unborrowed);
}

#[test]
fn into_reader_needs_the_last_writer() {
    let mut s = Stateful::new((1i32, 2i32));
    let split = s.split_writer(FirstOfPair);
    let copy = split.clone_writer(&mut s);
    let split = match split.into_reader(&mut s) {
        Ok(_) => panic!("two writers are alive"),
        Err(w) => w,
    };
    let mut w = split.write(&mut s);
    w.set(&mut s, 7);
    w.release(&mut s);
    assert_eq!(*split.read(&s), 7);
    copy.release(&mut s);
    let reader = match split.into_reader(&mut s) {
        Ok(r) => r,
        Err(_) => panic!("the last writer turns into a reader"),
    };
    assert_eq!(*reader.read(&s), 7);
}

#[test]
fn mapped_guard_writes_into_the_field() {
    let mut s = Stateful::new((1i32, Some(5u8)));
    let w = s.write();
    let mut part = WriteRef::map(w, &mut s, SecondOfPair);
    *part.value_mut(&mut s) = Some(9);
    assert_eq!(*part.value(&s), Some(9));
    part.release(&mut s);
    assert_eq!(*s.value(), (1, Some(9)));

    let w = s.write();
    let mapped = WriteRef::map(w, &mut s, SecondOfPair);
    let mut inner = match WriteRef::filter_map(mapped, &mut s, SomeValue) {
        Ok(inner) => inner,
        Err(_) => panic!("the option holds a value"),
    };
    inner.set(&mut s, 11);
    inner.release(&mut s);
    assert_eq!(*s.value(), (1, Some(11)));

    let mut t = Stateful::new(None::<u8>);
    let w = t.write();
    match WriteRef::filter_map(w, &mut t, SomeValue) {
        Ok(_) => panic!("the option is empty"),
        Err(orig) => orig.release(&mut t),
    }
    assert_eq!(t.borrow_state(), BorrowState::Unborrowed);
}

#[test]
fn nested_part_paths_and_partial_inclusion() {
    let mut s = Stateful::new(((1i32, 2i32), 3i32));
    let outer = s.part_writer(id("outer"), FirstOfPair).include_partial_writers(true);
    let inner: PartWriter<Compose<FirstOfPair, SecondOfPair, (i32, i32)>> =
        outer.part_writer(&mut s, id("inner"), SecondOfPair);
    let wild: PartWriter<Compose<FirstOfPair, FirstOfPair, (i32, i32)>> = outer.map_writer(&mut s, FirstOfPair);
    assert_eq!(inner.scope_path().to_vec(), vec!["outer".to_string(), "inner".to_string()]);
    assert_eq!(wild.scope_path().to_vec(), vec!["outer".to_string()]);
    let mut w_outer = outer.modifies(&s);
    let mut w_inner = inner.modifies(&s);

    let mut w = inner.write(&mut s);
    w.set(&mut s, 20);
    w.release(&mut s);
    s.run_until_stalled();
    assert_eq!(w_outer.take_events(&s).len(), 1);
    assert_eq!(w_inner.take_events(&s).len(), 1);
    assert_eq!(*s.value(), ((1, 20), 3));

    let mut w = outer.write(&mut s);
    w.set(&mut s, (5, 6));
    w.release(&mut s);
    s.run_until_stalled();
    assert_eq!(w_outer.take_events(&s).len(), 1);
    assert_eq!(w_inner.take_events(&s).len(), 0);
}

#[test]
fn modify_effect_flags() {
    assert_eq!(ModifyEffect::empty().bits(), 0);
    assert_eq!(ModifyEffect::data_only().bits(), 1);
    assert_eq!(ModifyEffect::framework_only().bits(), 2);
    assert_eq!(ModifyEffect::both().bits(), 3);
    let u = ModifyEffect::data_only().union(&ModifyEffect::framework_only());
    assert_eq!(u, ModifyEffect::both());
    assert!(u.contains(&ModifyEffect::data_only()));
    assert!(!ModifyEffect::data_only().contains(&ModifyEffect::both()));
    assert_eq!(ModifyEffect::both().remove(&ModifyEffect::framework_only()), ModifyEffect::data_only());
    assert_eq!(ModifyEffect::from_bits(2), ModifyEffect::framework_only());
    assert!(ModifyEffect::empty().is_empty());
}

#[test]
fn root_into_reader_and_value() {
    let mut s = Stateful::new(vec![1u8, 2]);
    let part = s.map_writer(WholeValue);
    let s = match s.into_reader() {
        Ok(_) => panic!("a part writer is alive"),
        Err(mut s) => {
            part.release(&mut s);
            s
        }
    };
    let reader = match s.into_reader() {
        Ok(r) => r,
        Err(_) => panic!("the root is the only writer"),
    };
    assert_eq!(reader.read(), &vec![1u8, 2]);
    assert_eq!(reader.try_into_value().ok(), Some(vec![1u8, 2]));

    let mut t = Stateful::new(3i64);
    let split = t.split_writer(WholeValue);
    let t = match t.try_into_value() {
        Ok(_) => panic!("a split writer is alive"),
        Err(mut t) => {
            split.release(&mut t);
            t
        }
    };
    assert_eq!(t.try_into_value().ok(), Some(3));
}

#[test]
fn writers_read_through_the_common_reader_trait() {
    let mut s = Stateful::new((4u8, 5u8));
    let first = s.part_writer(id("x"), FirstOfPair);
    let split = s.split_writer(SecondOfPair);
    let reader = first.clone_reader();
    let watcher = split.modifies(&s);
    assert_eq!(*first.read_value(&s), 4);
    assert_eq!(*split.read_value(&s), 5);
    assert_eq!(*reader.read_value(&s), 4);
    assert_eq!(*watcher.read_value(&s), 5);
    let nested = s.part_reader(FirstOfPair).clone_reader();
    assert_eq!(*nested.read(&s), 4);
}

#[test]
fn events_carry_the_writer_path() {
    let mut s = Stateful::new((1u8, 2u8));
    let first = s.part_writer(id("first"), FirstOfPair);
    let mut raw = s.raw_modifies();
    let mut w = first.write(&mut s);
    w.set(&mut s, 9);
    w.release(&mut s);
    s.run_until_stalled();
    let events = raw.take_events(&s);
    assert_eq!(events.len(), 1);
    assert_eq!(events[0].path.to_vec(), vec!["first".to_string()]);
    assert!(events[0].path_matches(first.scope_path(), false));
}

#[test]
fn writer_dispatches_to_its_variant() {
    let (mut s, whole) = Writer::value((1i32, 2i32));
    let mut whole_events = whole.modifies(&s);
    let split: Writer<SecondOfPair> = Writer::Split(s.split_writer(SecondOfPair));
    let part: Writer<FirstOfPair> = Writer::Part(s.part_writer(id("p"), FirstOfPair));
    let mut split_events = split.raw_modifies(&s);

    let mut w = split.write(&mut s);
    w.set(&mut s, 20);
    w.release(&mut s);
    let mut w = part.silent(&mut s);
    w.set(&mut s, 10);
    w.release(&mut s);
    s.run_until_stalled();
    assert_eq!(*s.value(), (10, 20));
    assert_eq!(*part.read(&s), 10);
    assert_eq!(*split.read(&s), 20);
    assert_eq!(split_events.take_events(&s).len(), 1);
    assert_eq!(whole_events.take_events(&s).len(), 1);

    let copy = split.clone_writer(&mut s);
    let split = match split.into_reader(&mut s) {
        Ok(_) => panic!("two split writers are alive"),
        Err(w) => w,
    };
    copy.release(&mut s);
    assert!(split.into_reader(&mut s).is_ok());
    let mut w = whole.shallow(&mut s);
    w.set(&mut s, (0, 0));
    w.release(&mut s);
    assert_eq!(*s.value(), (0, 0));
}

#[test]
fn part_watcher_hears_all_parent_events() {
    let mut s = Stateful::new((1u8, 2u8));
    let data = s.modifies();
    let mut second: ribir_state::watcher::Watcher<Compose<WholeValue, SecondOfPair, (u8, u8)>> =
        data.part_watcher(SecondOfPair);
    let mut copy = data.clone_watcher();
    let mut w = s.shallow();
    w.set(&mut s, (5, 2));
    w.release(&mut s);
    s.run_until_stalled();
    assert_eq!(*second.read(&s), 2);
    assert_eq!(second.take_events(&s).len(), 1);
    assert_eq!(copy.take_events(&s).len(), 0);
}

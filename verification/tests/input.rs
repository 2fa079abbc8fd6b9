use blok::input::ReconciliationBuffer;
use blok::state::Tick;

#[test]
fn drain_until_iter() {
    let mut buf = ReconciliationBuffer::new();
    buf.push(Tick(0), 'W');
    buf.push(Tick(1), 'A');
    buf.push(Tick(2), 'S');
    buf.push(Tick(3), 'D');
    buf.drain(Tick(2));
    assert_eq!(buf.iter(), vec![(Tick(2), &'S'), (Tick(3), &'D')]);
}

#[test]
fn oldest_of_empty_is_none() {
    let buf: ReconciliationBuffer<char> = ReconciliationBuffer::new();
    assert_eq!(buf.oldest(), None);
    assert_eq!(buf.iter(), Vec::<(Tick, &char)>::new());
}

#[test]
fn oldest_is_front() {
    let mut buf = ReconciliationBuffer::new();
    buf.push(Tick(5), 'a');
    buf.push(Tick(9), 'b');
    assert_eq!(buf.oldest(), Some(Tick(5)));
}

#[test]
fn drain_past_end_empties_buffer() {
    let mut buf = ReconciliationBuffer::new();
    buf.push(Tick(1), 'x');
    buf.push(Tick(2), 'y');
    buf.drain(Tick(10));
    assert_eq!(buf.oldest(), None);
}

#[test]
fn drain_before_start_keeps_all() {
    let mut buf = ReconciliationBuffer::new();
    buf.push(Tick(4), 'x');
    buf.push(Tick(7), 'y');
    buf.drain(Tick(4));
    assert_eq!(buf.iter(), vec![(Tick(4), &'x'), (Tick(7), &'y')]);
}

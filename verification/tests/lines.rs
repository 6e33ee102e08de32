use myclaw::lines::Lines;
use myclaw::registry::ChannelId;
use tokio::sync::mpsc;

#[test]
fn names_count_up_and_are_never_reused() {
    let mut lines: Lines<u8> = Lines::new();
    assert_eq!(lines.open(10), Some(ChannelId(0)));
    assert_eq!(lines.open(11), Some(ChannelId(1)));
    lines.close(ChannelId(1));
    lines.close(ChannelId(0));
    assert_eq!(lines.open(12), Some(ChannelId(2)));
    assert_eq!(lines.sender(ChannelId(0)), None);
    assert_eq!(lines.sender(ChannelId(2)), Some(&12));
}

#[test]
fn a_sender_is_found_under_its_name_until_the_channel_is_closed() {
    let mut lines: Lines<&str> = Lines::new();
    let a = lines.open("a").expect("a name is left");
    let b = lines.open("b").expect("a name is left");
    assert_eq!(lines.sender(a), Some(&"a"));
    assert_eq!(lines.sender(b), Some(&"b"));
    assert!(lines.is_open(a));
    lines.close(a);
    assert!(!lines.is_open(a));
    assert_eq!(lines.sender(a), None);
    assert_eq!(lines.sender(b), Some(&"b"));
    lines.close(a);
    assert_eq!(lines.sender(b), Some(&"b"));
    assert!(!lines.is_open(ChannelId(77)));
}

#[test]
fn abandoned_lists_the_queues_whose_receiver_is_gone() {
    let mut lines: Lines<mpsc::Sender<String>> = Lines::new();
    let (tx_a, rx_a) = mpsc::channel(1);
    let (tx_b, rx_b) = mpsc::channel(1);
    let (tx_c, mut rx_c) = mpsc::channel(1);
    let a = lines.open(tx_a).expect("a name is left");
    let b = lines.open(tx_b).expect("a name is left");
    let c = lines.open(tx_c).expect("a name is left");
    assert_eq!(lines.abandoned(), vec![]);
    drop(rx_b);
    assert_eq!(lines.abandoned(), vec![b]);
    rx_c.close();
    assert_eq!(lines.abandoned(), vec![b, c]);
    lines.close(b);
    assert_eq!(lines.abandoned(), vec![c]);
    drop(rx_a);
    assert_eq!(lines.abandoned(), vec![a, c]);
}

#[test]
fn text_is_put_on_the_queue_of_the_named_channel() {
    let mut lines: Lines<mpsc::UnboundedSender<String>> = Lines::new();
    let (tx_a, mut rx_a) = mpsc::unbounded_channel();
    let (tx_b, mut rx_b) = mpsc::unbounded_channel();
    let a = lines.open(tx_a).expect("a name is left");
    let b = lines.open(tx_b).expect("a name is left");
    assert_eq!(lines.send(b, "one".to_string()), Ok(()));
    assert_eq!(lines.send(b, "two".to_string()), Ok(()));
    assert_eq!(lines.send(a, "three".to_string()), Ok(()));
    assert_eq!(rx_b.try_recv().ok(), Some("one".to_string()));
    assert_eq!(rx_b.try_recv().ok(), Some("two".to_string()));
    assert_eq!(rx_b.try_recv().ok(), None);
    assert_eq!(rx_a.try_recv().ok(), Some("three".to_string()));
}

#[test]
fn text_for_a_queue_that_is_gone_comes_back() {
    let mut lines: Lines<mpsc::UnboundedSender<String>> = Lines::new();
    let (tx, rx) = mpsc::unbounded_channel();
    let id = lines.open(tx).expect("a name is left");
    drop(rx);
    assert_eq!(lines.send(id, "lost".to_string()), Err("lost".to_string()));
    assert_eq!(lines.send(ChannelId(9), "nowhere".to_string()), Err("nowhere".to_string()));
    lines.close(id);
    assert_eq!(lines.send(id, "late".to_string()), Err("late".to_string()));
}

#[test]
fn pick_lists_the_flagged_channels_in_opening_order() {
    let mut lines: Lines<char> = Lines::new();
    let a = lines.open('a').expect("a name is left");
    let b = lines.open('b').expect("a name is left");
    let c = lines.open('c').expect("a name is left");
    let d = lines.open('d').expect("a name is left");
    lines.close(b);
    assert_eq!(lines.pick(&vec![true, false, true]), vec![a, d]);
    assert_eq!(lines.pick(&vec![false, true, false]), vec![c]);
    assert_eq!(lines.pick(&vec![true, true, true]), vec![a, c, d]);
    assert_eq!(lines.pick(&vec![false, false, false]), vec![]);
}

#[test]
fn pick_takes_a_missing_flag_as_not_set_and_ignores_extra_flags() {
    let mut lines: Lines<char> = Lines::new();
    let a = lines.open('a').expect("a name is left");
    let b = lines.open('b').expect("a name is left");
    assert_eq!(lines.pick(&vec![]), vec![]);
    assert_eq!(lines.pick(&vec![true]), vec![a]);
    assert_eq!(lines.pick(&vec![true, true, true, true]), vec![a, b]);
    let empty: Lines<char> = Lines::new();
    assert_eq!(empty.pick(&vec![true, true]), vec![]);
}

#[test]
fn abandoned_of_no_channels_is_empty() {
    let lines: Lines<mpsc::Sender<String>> = Lines::new();
    assert_eq!(lines.abandoned(), vec![]);
}

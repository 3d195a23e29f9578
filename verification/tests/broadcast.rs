use blocknet::{BroadcastChannel, Delivery, Message, MessageType, Subscription, DEFAULT_CAPACITY};

fn numbered(number: u8) -> Message {
    Message::new(MessageType::PostBlockchain, vec![number; 3]).unwrap()
}

fn drain(subscription: &mut Subscription, channel: &BroadcastChannel) -> Vec<Delivery> {
    let mut seen = Vec::new();
    loop {
        match subscription.next(channel) {
            Delivery::Pending => return seen,
            other => seen.push(other),
        }
    }
}

#[test]
fn default_capacity_is_sixteen() {
    assert_eq!(DEFAULT_CAPACITY, 16);
}

#[test]
fn a_new_channel_is_empty() {
    let channel = BroadcastChannel::new(4);
    assert_eq!(channel.capacity(), 4);
    assert_eq!(channel.published(), 0);
    assert_eq!(channel.retained(), 0);
    let mut subscription = channel.subscribe();
    assert_eq!(subscription.cursor(), 0);
    assert_eq!(subscription.next(&channel), Delivery::Pending);
    assert_eq!(subscription.cursor(), 0);
}

#[test]
fn broadcast_isolation() {
    let mut channel = BroadcastChannel::new(DEFAULT_CAPACITY);
    let mut early = channel.subscribe();
    channel.publish(numbered(1));
    let mut late = channel.subscribe();
    channel.publish(numbered(2));
    assert_eq!(
        drain(&mut early, &channel),
        vec![Delivery::Message(numbered(1)), Delivery::Message(numbered(2))]
    );
    assert_eq!(drain(&mut late, &channel), vec![Delivery::Message(numbered(2))]);
}

#[test]
fn each_message_is_delivered_once() {
    let mut channel = BroadcastChannel::new(4);
    let mut subscription = channel.subscribe();
    channel.publish(numbered(1));
    assert_eq!(subscription.next(&channel), Delivery::Message(numbered(1)));
    assert_eq!(subscription.cursor(), 1);
    assert_eq!(subscription.next(&channel), Delivery::Pending);
    assert_eq!(subscription.next(&channel), Delivery::Pending);
    channel.publish(numbered(2));
    assert_eq!(subscription.next(&channel), Delivery::Message(numbered(2)));
    assert_eq!(subscription.next(&channel), Delivery::Pending);
    assert_eq!(subscription.cursor(), 2);
}

#[test]
fn a_full_ring_is_read_without_lag() {
    let mut channel = BroadcastChannel::new(DEFAULT_CAPACITY);
    let mut subscription = channel.subscribe();
    for number in 0..16u8 {
        channel.publish(numbered(number));
    }
    assert_eq!(channel.retained(), 16);
    let expected: Vec<Delivery> = (0..16u8).map(|n| Delivery::Message(numbered(n))).collect();
    assert_eq!(drain(&mut subscription, &channel), expected);
}

#[test]
fn lag_is_reported() {
    let mut channel = BroadcastChannel::new(DEFAULT_CAPACITY);
    let mut subscription = channel.subscribe();
    for number in 0..17u8 {
        channel.publish(numbered(number));
    }
    assert_eq!(channel.published(), 17);
    assert_eq!(channel.retained(), 16);
    assert_eq!(subscription.next(&channel), Delivery::Lagged(1));
    assert_eq!(subscription.cursor(), 1);
    let expected: Vec<Delivery> = (1..17u8).map(|n| Delivery::Message(numbered(n))).collect();
    assert_eq!(drain(&mut subscription, &channel), expected);
}

#[test]
fn lag_counts_every_lost_message() {
    let mut channel = BroadcastChannel::new(3);
    channel.publish(numbered(100));
    let mut subscription = channel.subscribe();
    for number in 0..10u8 {
        channel.publish(numbered(number));
    }
    assert_eq!(
        drain(&mut subscription, &channel),
        vec![
            Delivery::Lagged(7),
            Delivery::Message(numbered(7)),
            Delivery::Message(numbered(8)),
            Delivery::Message(numbered(9)),
        ]
    );
}

#[test]
fn a_late_subscriber_does_not_lag() {
    let mut channel = BroadcastChannel::new(2);
    for number in 0..9u8 {
        channel.publish(numbered(number));
    }
    let mut subscription = channel.subscribe();
    assert_eq!(subscription.cursor(), 9);
    assert_eq!(subscription.next(&channel), Delivery::Pending);
    channel.publish(numbered(9));
    assert_eq!(drain(&mut subscription, &channel), vec![Delivery::Message(numbered(9))]);
}

#[test]
fn a_channel_without_room_retains_nothing() {
    let mut channel = BroadcastChannel::new(0);
    let mut subscription = channel.subscribe();
    channel.publish(numbered(1));
    channel.publish(numbered(2));
    assert_eq!(channel.retained(), 0);
    assert_eq!(drain(&mut subscription, &channel), vec![Delivery::Lagged(2)]);
    assert_eq!(subscription.cursor(), 2);
}

#[test]
fn fan_out_does_not_depend_on_other_readers() {
    let mut channel = BroadcastChannel::new(DEFAULT_CAPACITY);
    let mut eager: Vec<Subscription> = (0..5).map(|_| channel.subscribe()).collect();
    let mut slow = channel.subscribe();
    let mut seen: Vec<Vec<Delivery>> = (0..5).map(|_| Vec::new()).collect();
    for number in 0..10u8 {
        channel.publish(numbered(number));
        for (index, subscription) in eager.iter_mut().enumerate() {
            if number as usize % (index + 1) == 0 {
                seen[index].extend(drain(subscription, &channel));
            }
        }
    }
    let expected: Vec<Delivery> = (0..10u8).map(|n| Delivery::Message(numbered(n))).collect();
    for (index, subscription) in eager.iter_mut().enumerate() {
        seen[index].extend(drain(subscription, &channel));
        assert_eq!(seen[index], expected);
    }
    assert_eq!(drain(&mut slow, &channel), expected);
}

#[test]
fn a_subscription_ahead_of_the_channel_waits() {
    let mut long = BroadcastChannel::new(4);
    long.publish(numbered(1));
    long.publish(numbered(2));
    let mut subscription = long.subscribe();
    let short = BroadcastChannel::new(4);
    assert_eq!(subscription.next(&short), Delivery::Pending);
    assert_eq!(subscription.cursor(), 2);
}

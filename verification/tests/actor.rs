use my_home::actor::channel::{Channel, ChannelMsg, Topic};
use my_home::actor::network::{ReadFramedUdp, ReadStep};
use my_home::actor::timer::{ScheduleId, TimerTasks};
use my_home::actor::typed::{StaticTopic, Topic as TypedTopic};
use my_home::actor::{ActorSystem, CreateError};
use my_home::lifx::codec::LifxCodec;
use my_home::lifx::{LifxMessage, Request, SendOptions};

fn subscribe(c: &mut Channel<u8>, topic: &str, path: &str, send: u8) {
    let r = c.recv::<()>(ChannelMsg::Subscribe { topic: Topic::from(topic), path: path.to_string(), send });
    assert!(r.is_none());
}

fn paths(c: &Channel<u8>, topic: &str) -> Vec<String> {
    match c.subscribers(&Topic::from(topic)) {
        Some(v) => v.iter().map(|(p, _)| p.clone()).collect(),
        None => vec![],
    }
}

#[test]
fn subscribers_of_a_topic_receive_what_is_published_on_it() {
    let mut c: Channel<u8> = Channel::new();
    subscribe(&mut c, "sensors/luminosity", "/user/a", 1);
    subscribe(&mut c, "sensors/luminosity", "/user/b", 2);
    subscribe(&mut c, "other", "/user/c", 3);
    let published = c.recv(ChannelMsg::Publish { topic: Topic::from("sensors/luminosity"), msg: 42u32 });
    let p = published.unwrap();
    assert_eq!(p.topic.as_str(), "sensors/luminosity");
    assert_eq!(p.msg, 42);
    let to: Vec<(&str, u8)> = p.subscribers.iter().map(|(path, s)| (path.as_str(), *s)).collect();
    assert_eq!(to, vec![("/user/a", 1), ("/user/b", 2)]);
    let p = c.recv(ChannelMsg::Publish { topic: Topic::from("nobody"), msg: 1u32 }).unwrap();
    assert!(p.subscribers.is_empty());
    assert_eq!(paths(&c, "sensors/luminosity"), vec!["/user/a".to_string(), "/user/b".to_string()]);
    assert_eq!(paths(&c, "other"), vec!["/user/c".to_string()]);
}

#[test]
fn unsubscribe_undoes_subscribe() {
    let mut c: Channel<u8> = Channel::new();
    subscribe(&mut c, "t", "/user/a", 1);
    subscribe(&mut c, "t", "/user/b", 2);
    c.recv::<()>(ChannelMsg::Unsubscribe { topic: Topic::from("t"), path: "/user/a".to_string() });
    assert_eq!(paths(&c, "t"), vec!["/user/b".to_string()]);
    // unsubscribing a path that is not there changes nothing
    c.recv::<()>(ChannelMsg::Unsubscribe { topic: Topic::from("t"), path: "/user/z".to_string() });
    assert_eq!(paths(&c, "t"), vec!["/user/b".to_string()]);
}

#[test]
fn unsubscribe_all_leaves_every_topic() {
    let mut c: Channel<u8> = Channel::new();
    subscribe(&mut c, "t1", "/user/a", 1);
    subscribe(&mut c, "t2", "/user/a", 1);
    subscribe(&mut c, "t2", "/user/b", 2);
    c.recv::<()>(ChannelMsg::UnsubscribeAll { path: "/user/a".to_string() });
    assert!(paths(&c, "t1").is_empty());
    assert_eq!(paths(&c, "t2"), vec!["/user/b".to_string()]);
}

#[test]
fn topics_compare_by_name() {
    assert!(Topic::from("a") == Topic::from("a"));
    assert!(Topic::from("a") != Topic::from("b"));
    let t: TypedTopic<u8> = StaticTopic::new("x").into_topic();
    assert!(t.same_as(&TypedTopic::new("x")));
    assert_eq!(t.as_str(), "x");
}

#[test]
fn an_actor_name_is_registered_once() {
    let mut system: ActorSystem<u32> = ActorSystem::new();
    assert!(system.actor_of("lifx", 1).is_ok());
    assert!(system.actor_of("screen", 2).is_ok());
    match system.actor_of("lifx", 3) {
        Err(CreateError::AlreadyExists(n)) => assert_eq!(n, "lifx"),
        r => panic!("unexpected {:?}", r),
    }
    assert_eq!(system.find_actor("lifx"), Some(&1));
    assert_eq!(system.find_actor("screen"), Some(&2));
    assert_eq!(system.find_actor("mqtt"), None);
}

#[test]
fn timer_tasks_by_identifier() {
    let mut tasks: TimerTasks<&str> = TimerTasks::new();
    assert_eq!(tasks.register(ScheduleId(1), "one"), None);
    assert_eq!(tasks.register(ScheduleId(2), "two"), None);
    assert_eq!(tasks.register(ScheduleId(1), "uno"), Some("one"));
    assert_eq!(tasks.cancel(ScheduleId(1)), Some(&"uno"));
    assert_eq!(tasks.cancel(ScheduleId(3)), None);
}

#[test]
fn framed_reader_decodes_each_datagram_of_a_read() {
    let options = SendOptions { target: Some(5), ack_required: false, res_required: true, sequence: 0, source: 1 };
    let mut datagram = Vec::new();
    LifxCodec.encode((options, Request::GetLabel), &mut datagram).unwrap();
    LifxCodec.encode((options, Request::GetPower), &mut datagram).unwrap();

    let mut reader: ReadFramedUdp<u32> = ReadFramedUdp::new();
    assert!(matches!(reader.poll_next(), ReadStep::Receive));
    reader.received(datagram, 77);
    assert!(!reader.would_panic());
    match reader.poll_next() {
        ReadStep::Frame(a, LifxMessage::GetLabel, 77) => assert_eq!(a.target, 5),
        r => panic!("unexpected {:?}", r),
    }
    assert!(matches!(reader.poll_next(), ReadStep::Frame(_, LifxMessage::GetPower, 77)));
    assert!(matches!(reader.poll_next(), ReadStep::Receive));
    assert!(matches!(reader.poll_next(), ReadStep::Receive));
}

#[test]
fn framed_reader_reports_a_partial_datagram() {
    let mut reader: ReadFramedUdp<u32> = ReadFramedUdp::new();
    reader.received(vec![1, 2, 3], 9);
    assert!(matches!(reader.poll_next(), ReadStep::Error(_)));
}

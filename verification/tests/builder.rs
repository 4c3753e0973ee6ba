use hypertube::builder::{Config, DeviceBuilder};
use hypertube::{Device, Error, IpAddress, IpNetwork, Ipv4Network};

#[test]
fn create_tun_device() {
    let device = hypertube::builder().with_num_queues(1).map(|builder| builder.build());
    println!("{:?}", device);
}

#[test]
fn a_new_builder_asks_for_nothing() {
    let config = hypertube::builder().build();
    assert_eq!(config.name, None);
    assert_eq!(config.num_queues, None);
    assert!(config.no_pi);
    assert_eq!(config.address, None);
    assert_eq!(config.netmask, None);
    assert!(!config.up);
    assert_eq!(config.queue_count(), 1);
    assert!(!config.multi_queue());
}

#[test]
fn every_way_to_a_builder_gives_the_same() {
    let a = hypertube::builder().build();
    let b = DeviceBuilder::new().build();
    let c = DeviceBuilder::default().build();
    let d = Device::builder().build();
    assert_eq!(a, b);
    assert_eq!(a, c);
    assert_eq!(a, d);
    assert_eq!(a, Config::default());
}

#[test]
fn the_default_configuration_is_the_empty_one() {
    let config = Config::default();
    assert_eq!(
        config,
        Config { name: None, num_queues: None, no_pi: true, address: None, netmask: None, up: false }
    );
}

#[test]
fn setters_record_their_values() {
    let network = Ipv4Network::new([10, 0, 0, 0], 24).unwrap();
    let config = hypertube::builder()
        .with_name(b"tun3".to_vec())
        .with_pi(true)
        .with_address(IpAddress::V4([10, 0, 0, 1]))
        .with_netmask(IpNetwork::V4(network))
        .with_up(true)
        .with_num_queues(4)
        .unwrap()
        .build();
    assert_eq!(config.name, Some(b"tun3".to_vec()));
    assert_eq!(config.num_queues, Some(4));
    assert!(!config.no_pi);
    assert_eq!(config.address, Some(IpAddress::V4([10, 0, 0, 1])));
    assert_eq!(config.netmask, Some(IpNetwork::V4(network)));
    assert!(config.up);
}

#[test]
fn a_later_setting_overwrites_an_earlier_one() {
    let config = hypertube::builder()
        .with_name(b"first".to_vec())
        .with_name(b"second".to_vec())
        .with_pi(true)
        .with_pi(false)
        .with_up(true)
        .with_up(false)
        .with_address(IpAddress::V4([1, 2, 3, 4]))
        .with_address(IpAddress::V4([5, 6, 7, 8]))
        .with_num_queues(3)
        .unwrap()
        .with_num_queues(2)
        .unwrap()
        .build();
    assert_eq!(config.name, Some(b"second".to_vec()));
    assert!(config.no_pi);
    assert!(!config.up);
    assert_eq!(config.address, Some(IpAddress::V4([5, 6, 7, 8])));
    assert_eq!(config.num_queues, Some(2));
}

#[test]
fn a_setting_leaves_the_others_alone() {
    let config = hypertube::builder().with_name(b"tun0".to_vec()).with_up(true).build();
    assert_eq!(config.name, Some(b"tun0".to_vec()));
    assert!(config.up);
    assert_eq!(config.num_queues, None);
    assert!(config.no_pi);
    assert_eq!(config.address, None);
    assert_eq!(config.netmask, None);
}

#[test]
fn zero_queues_are_refused_by_the_builder() {
    assert_eq!(hypertube::builder().with_num_queues(0), Err(Error::InvalidArgument));
}

#[test]
fn with_pi_is_the_opposite_of_no_pi() {
    assert!(!hypertube::builder().with_pi(true).build().no_pi);
    assert!(hypertube::builder().with_pi(false).build().no_pi);
}

#[test]
fn multi_queue_follows_the_number_of_queues() {
    let one = hypertube::builder().with_num_queues(1).unwrap().build();
    assert_eq!(one.queue_count(), 1);
    assert!(!one.multi_queue());
    let two = hypertube::builder().with_num_queues(2).unwrap().build();
    assert_eq!(two.queue_count(), 2);
    assert!(two.multi_queue());
    let many = hypertube::builder().with_num_queues(usize::MAX).unwrap().build();
    assert_eq!(many.queue_count(), usize::MAX);
    assert!(many.multi_queue());
}

#[test]
fn config_new_takes_its_parts_unchecked() {
    let config = Config::new(Some(b"x".to_vec()), Some(0), false, None, None);
    assert_eq!(config.name, Some(b"x".to_vec()));
    assert_eq!(config.num_queues, Some(0));
    assert!(!config.no_pi);
    assert!(!config.up);
    assert_eq!(config.queue_count(), 0);
    assert!(!config.multi_queue());
}

#[test]
fn a_name_fits_up_to_fifteen_bytes() {
    assert!(Config::new(None, None, true, None, None).name_fits());
    assert!(Config::new(Some(Vec::new()), None, true, None, None).name_fits());
    assert!(Config::new(Some(vec![b'a'; 15]), None, true, None, None).name_fits());
    assert!(!Config::new(Some(vec![b'a'; 16]), None, true, None, None).name_fits());
    assert!(!Config::new(Some(vec![b'a'; 300]), None, true, None, None).name_fits());
}

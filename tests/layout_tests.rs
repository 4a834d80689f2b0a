use gabelstaplerwm::layout::{send_message, Geometry, Layout, ScreenSize};
use gabelstaplerwm::layouts::{DStack, HStack, Monocle, VStack};
use gabelstaplerwm::msg::{GenericMessage, LayoutMessage, MasterFactorMessage, MasterNumberMessage};

fn geom(x: u16, y: u16, width: u16, height: u16) -> Geometry {
    Geometry { x, y, width, height }
}

#[test]
fn screen_size_takes_smaller_sides() {
    let old = ScreenSize { width: 1920, height: 1080 };
    let r = ScreenSize::new(&old, 1280, 1200);
    assert_eq!(r.width, 1280);
    assert_eq!(r.height, 1080);
    let same = ScreenSize::new(&old, 1920, 1080);
    assert_eq!(same, old);
    let zero = ScreenSize::new(&old, 0, 0);
    assert_eq!(zero.width, 0);
    assert_eq!(zero.height, 0);
}

#[test]
fn master_factor_saturates() {
    assert_eq!(MasterFactorMessage::Increase(30).apply(80), 100);
    assert_eq!(MasterFactorMessage::Increase(10).apply(50), 60);
    assert_eq!(MasterFactorMessage::Increase(255).apply(100), 100);
    assert_eq!(MasterFactorMessage::Decrease(30).apply(20), 0);
    assert_eq!(MasterFactorMessage::Decrease(20).apply(50), 30);
    assert_eq!(MasterFactorMessage::Decrease(50).apply(50), 0);
    assert_eq!(MasterFactorMessage::Absolute(150).apply(10), 100);
    assert_eq!(MasterFactorMessage::Absolute(42).apply(10), 42);
}

#[test]
fn master_number_stays_positive() {
    assert_eq!(MasterNumberMessage::Decrease(5).apply(3), 1);
    assert_eq!(MasterNumberMessage::Decrease(2).apply(3), 1);
    assert_eq!(MasterNumberMessage::Decrease(1).apply(3), 2);
    assert_eq!(MasterNumberMessage::Increase(4).apply(3), 7);
    assert_eq!(MasterNumberMessage::Increase(1).apply(usize::MAX), usize::MAX);
    assert_eq!(MasterNumberMessage::Absolute(0).apply(3), 1);
    assert_eq!(MasterNumberMessage::Absolute(200).apply(3), 200);
}

#[test]
fn arrange_gives_one_entry_per_window() {
    let screen = ScreenSize { width: 800, height: 600 };
    let d = DStack::new(60, 1);
    for n in 0..7usize {
        assert_eq!(Monocle {}.arrange(n, &screen).len(), n);
        assert_eq!(VStack {}.arrange(n, &screen).len(), n);
        assert_eq!(HStack {}.arrange(n, &screen).len(), n);
        assert_eq!(d.arrange(n, &screen).len(), n);
    }
    assert!(Monocle {}.arrange(0, &screen).is_empty());
    assert!(d.arrange(0, &screen).is_empty());
}

#[test]
fn monocle_shows_first_window_only() {
    let screen = ScreenSize { width: 800, height: 600 };
    let r = Monocle {}.arrange(3, &screen);
    assert_eq!(r, vec![Some(geom(0, 0, 800, 600)), None, None]);
    assert_eq!(Monocle {}.right_window(0, 3), None);
    assert_eq!(Monocle {}.left_window(1, 3), None);
    assert_eq!(Monocle {}.top_window(1, 3), None);
    assert_eq!(Monocle {}.bottom_window(0, 3), None);
}

#[test]
fn vstack_splits_height() {
    let screen = ScreenSize { width: 800, height: 600 };
    let r = VStack {}.arrange(3, &screen);
    assert_eq!(
        r,
        vec![Some(geom(0, 0, 800, 200)), Some(geom(0, 200, 800, 200)), Some(geom(0, 400, 800, 200))]
    );
    assert_eq!(VStack {}.bottom_window(0, 3), Some(1));
    assert_eq!(VStack {}.top_window(1, 3), Some(0));
    assert_eq!(VStack {}.top_window(0, 3), None);
    assert_eq!(VStack {}.bottom_window(2, 3), None);
    assert_eq!(VStack {}.right_window(0, 3), None);
}

#[test]
fn hstack_splits_width() {
    let screen = ScreenSize { width: 900, height: 600 };
    let r = HStack {}.arrange(2, &screen);
    assert_eq!(r, vec![Some(geom(0, 0, 450, 600)), Some(geom(450, 0, 450, 600))]);
    assert_eq!(HStack {}.right_window(0, 2), Some(1));
    assert_eq!(HStack {}.left_window(1, 2), Some(0));
    assert_eq!(HStack {}.right_window(1, 2), None);
    assert_eq!(HStack {}.left_window(0, 2), None);
    assert_eq!(HStack {}.top_window(1, 2), None);
}

#[test]
fn dstack_places_master_and_stack() {
    let screen = ScreenSize { width: 1000, height: 600 };
    let d = DStack::new(60, 1);
    let r = d.arrange(3, &screen);
    assert_eq!(
        r,
        vec![Some(geom(0, 0, 600, 600)), Some(geom(600, 0, 400, 300)), Some(geom(600, 300, 400, 300))]
    );
    let all_masters = DStack::new(60, 4).arrange(2, &screen);
    assert_eq!(all_masters, vec![Some(geom(0, 0, 1000, 300)), Some(geom(0, 300, 1000, 300))]);
    assert_eq!(d.right_window(0, 3), Some(1));
    assert_eq!(d.left_window(1, 3), Some(0));
    assert_eq!(d.left_window(2, 3), Some(0));
    assert_eq!(d.bottom_window(1, 3), Some(2));
    assert_eq!(d.top_window(2, 3), Some(1));
    assert_eq!(d.top_window(1, 3), None);
    assert_eq!(d.bottom_window(0, 3), None);
    assert_eq!(d.right_window(5, 3), None);
}

#[test]
fn dstack_takes_master_messages() {
    let mut d = DStack::new(50, 1);
    let f = LayoutMessage::MasterFactorMessage(MasterFactorMessage::Increase(70));
    assert!(d.accepts(&f));
    assert!(send_message(&mut d, &f));
    assert_eq!(d.master_factor, 100);
    let n = LayoutMessage::MasterNumberMessage(MasterNumberMessage::Increase(2));
    assert!(send_message(&mut d, &n));
    assert_eq!(d.master_number, 3);
    let generic = LayoutMessage::GenericMessage(GenericMessage::AddClient(7));
    assert!(!send_message(&mut d, &generic));
    assert_eq!(d, DStack::new(100, 3));
}

#[test]
fn unsupported_message_is_ignored() {
    let screen = ScreenSize { width: 640, height: 480 };
    let msg = LayoutMessage::MasterFactorMessage(MasterFactorMessage::Absolute(10));
    let mut m = Monocle {};
    let before = m.arrange(2, &screen);
    assert!(!m.accepts(&msg));
    assert!(!send_message(&mut m, &msg));
    assert_eq!(m.arrange(2, &screen), before);
    let mut v = VStack {};
    let before = v.arrange(4, &screen);
    assert!(!send_message(&mut v, &msg));
    assert_eq!(v.arrange(4, &screen), before);
    let mut h = HStack {};
    let number = LayoutMessage::MasterNumberMessage(MasterNumberMessage::Decrease(1));
    let before = h.arrange(3, &screen);
    assert!(!send_message(&mut h, &number));
    assert_eq!(h.arrange(3, &screen), before);
}

#[test]
fn navigation_round_trips() {
    let h = HStack {};
    let v = VStack {};
    for i in 0..4usize {
        if let Some(j) = h.right_window(i, 4) {
            assert_eq!(h.left_window(j, 4), Some(i));
        }
        if let Some(j) = v.bottom_window(i, 4) {
            assert_eq!(v.top_window(j, 4), Some(i));
        }
    }
    let d = DStack::new(50, 2);
    assert_eq!(d.right_window(0, 5), Some(2));
    assert_eq!(d.right_window(1, 5), Some(3));
    assert_eq!(d.left_window(3, 5), Some(1));
    assert_eq!(d.left_window(4, 5), Some(1));
    assert_eq!(d.bottom_window(1, 5), None);
    assert_eq!(d.bottom_window(2, 5), Some(3));
    assert_eq!(d.top_window(2, 5), None);
}

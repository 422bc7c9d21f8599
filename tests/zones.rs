use utm::floored::Floored;
use utm::zone::{longitude_zone, zone_letter, zone_number};

fn floored(x: f64) -> Floored {
    Floored::new(x.floor() as i64, x == x.floor())
}

fn number_of(lat: f64, lon: f64) -> u8 {
    zone_number(floored(lat), floored(lon))
}

fn letter_of(lat: f64) -> Option<char> {
    zone_letter(floored(lat))
}

#[test]
fn zone_number_at_origin() {
    assert_eq!(number_of(0., 0.), 31);
}

#[test]
fn zone_number_of_cities() {
    assert_eq!(number_of(-33.92487, 18.42406), 34);
    assert_eq!(number_of(50.77535, 6.08389), 32);
    assert_eq!(number_of(60.9679875497, -149.119325194), 6);
    assert_eq!(number_of(-41.28646, 174.77624), 60);
}

#[test]
fn zone_number_norway_override() {
    assert_eq!(number_of(60., 5.), 32);
    assert_eq!(number_of(56., 3.), 32);
    assert_eq!(number_of(63.999, 11.999), 32);
    assert_eq!(number_of(64., 5.), 31);
    assert_eq!(number_of(55.999, 5.), 31);
    assert_eq!(number_of(60., 2.999), 31);
    assert_eq!(number_of(60., 12.), 33);
}

#[test]
fn zone_number_svalbard_override() {
    assert_eq!(number_of(75., 5.), 31);
    assert_eq!(number_of(75., 15.), 33);
    assert_eq!(number_of(75., 25.), 35);
    assert_eq!(number_of(75., 40.), 37);
    assert_eq!(number_of(72., 0.), 31);
    assert_eq!(number_of(84., 8.999), 31);
    assert_eq!(number_of(80., 9.), 33);
    assert_eq!(number_of(80., 21.), 35);
    assert_eq!(number_of(80., 33.), 37);
    assert_eq!(number_of(80., 42.), 38);
    assert_eq!(number_of(84.5, 5.), 31);
    assert_eq!(number_of(84.5, 15.), 33);
    assert_eq!(number_of(71.999, 15.), 33);
    assert_eq!(number_of(75., -0.5), 30);
}

#[test]
fn zone_number_without_exception() {
    assert_eq!(number_of(0., -180.), 1);
    assert_eq!(number_of(0., -174.0001), 1);
    assert_eq!(number_of(0., -174.), 2);
    assert_eq!(number_of(0., 179.999), 60);
    assert_eq!(number_of(0., 180.), 61);
    assert_eq!(number_of(0., -0.5), 30);
}

#[test]
fn longitude_zone_far_outside() {
    assert_eq!(longitude_zone(floored(-180.5)), 0);
    assert_eq!(longitude_zone(floored(-200.)), 0);
    assert_eq!(longitude_zone(floored(1349.9)), 255);
    assert_eq!(longitude_zone(floored(5000.)), 255);
    assert_eq!(longitude_zone(Floored::new(i64::MAX, true)), 255);
    assert_eq!(longitude_zone(Floored::new(i64::MIN, true)), 0);
}

#[test]
fn zone_letter_examples() {
    assert_eq!(letter_of(-33.92487), Some('H'));
    assert_eq!(letter_of(0.), Some('N'));
    assert_eq!(letter_of(50.77535), Some('U'));
    assert_eq!(letter_of(85.), None);
    assert_eq!(letter_of(-81.), None);
}

#[test]
fn zone_letter_edges() {
    assert_eq!(letter_of(-80.), Some('C'));
    assert_eq!(letter_of(-80.0001), None);
    assert_eq!(letter_of(-72.0001), Some('C'));
    assert_eq!(letter_of(-72.), Some('D'));
    assert_eq!(letter_of(-0.0001), Some('M'));
    assert_eq!(letter_of(71.999), Some('W'));
    assert_eq!(letter_of(72.), Some('X'));
    assert_eq!(letter_of(80.), Some('X'));
    assert_eq!(letter_of(84.), Some('X'));
    assert_eq!(letter_of(84.0001), None);
}

#[test]
fn floored_comparisons() {
    let x = floored(84.5);
    assert!(x.is_at_least(84));
    assert!(!x.is_at_most(84));
    assert!(x.is_below(85));
    let y = Floored::from_integer(84);
    assert!(y.is_at_most(84));
    assert!(!y.is_below(84));
    assert!(y.is_at_least(84));
    let z = floored(-0.5);
    assert!(z.is_below(0));
    assert!(!z.is_at_least(0));
}

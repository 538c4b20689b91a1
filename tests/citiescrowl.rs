use citiescrowl::coord::Coord;
use citiescrowl::detail::{detail_panel, map_url, wiki_url, ClickHandler};
use citiescrowl::expiry::{Expiry, LABEL_LIFETIME_MILLIS};
use citiescrowl::label::{class_text, duration_ten_thousandths, label_target, style_text, Label};
use citiescrowl::record::{LoadError, RecordStore};
use citiescrowl::sampler::{sample_index, sample_visual_params, VisualParams};
use citiescrowl::source::{dataset_address, dataset_url, default_host};
use citiescrowl::spawn::{burst_size, SpawnAction, SpawnEvent, SpawnPhase, INTERVAL_MILLIS, WARM_UP_MILLIS};
use citiescrowl::text::{decimal_text, display_name, fixed_text, signed_fixed_text, title_text};

const DATASET: &str = "東京都,千代田区,とうきょうと,ちよだく,35.6940,139.7536\n\
神奈川県,横浜（神奈川）,かながわけん,よこはま,35.4437,139.6380\n";

fn store() -> RecordStore {
    RecordStore::load(DATASET).unwrap()
}

#[test]
fn burst_size_follows_height() {
    assert_eq!(burst_size(800), 10);
    assert_eq!(burst_size(0), 0);
    assert_eq!(burst_size(1600), 20);
    assert_eq!(burst_size(799), 9);
    assert_eq!(burst_size(80), 1);
    assert_eq!(burst_size(79), 0);
    assert_eq!(burst_size(-40), 0);
}

#[test]
fn spawn_loop_warms_up_then_waits() {
    let (p, a) = SpawnPhase::new().step(SpawnEvent::Started);
    assert_eq!(p, SpawnPhase::WarmingUp);
    assert_eq!(a, SpawnAction::Wait { millis: WARM_UP_MILLIS });
    assert_eq!(WARM_UP_MILLIS, 3000);
    let (p, a) = p.step(SpawnEvent::TimerFired { height: 800 });
    assert_eq!(p, SpawnPhase::Waiting);
    assert_eq!(a, SpawnAction::Wait { millis: INTERVAL_MILLIS });
    assert_eq!(INTERVAL_MILLIS, 1000);
    let (p, a) = p.step(SpawnEvent::TimerFired { height: 800 });
    assert_eq!(p, SpawnPhase::Bursting { remaining: 9 });
    assert_eq!(a, SpawnAction::CreateLabel);
}

#[test]
fn spawn_loop_ignores_events_out_of_place() {
    let (p, a) = SpawnPhase::Idle.step(SpawnEvent::TimerFired { height: 800 });
    assert_eq!((p, a), (SpawnPhase::Idle, SpawnAction::Ignore));
    let (p, a) = SpawnPhase::Waiting.step(SpawnEvent::LabelFinished { created: true });
    assert_eq!((p, a), (SpawnPhase::Waiting, SpawnAction::Ignore));
    let (p, a) = SpawnPhase::WarmingUp.step(SpawnEvent::Started);
    assert_eq!((p, a), (SpawnPhase::WarmingUp, SpawnAction::Ignore));
}

#[test]
fn spawn_loop_with_empty_viewport_keeps_waiting() {
    let (p, a) = SpawnPhase::Waiting.step(SpawnEvent::TimerFired { height: 0 });
    assert_eq!(p, SpawnPhase::Waiting);
    assert_eq!(a, SpawnAction::Wait { millis: 1000 });
}

#[test]
fn spawn_loop_survives_failing_labels() {
    let mut phase = SpawnPhase::Waiting;
    for _ in 0..3 {
        let (p, a) = phase.step(SpawnEvent::TimerFired { height: 800 });
        assert_eq!(a, SpawnAction::CreateLabel);
        phase = p;
        let mut created = 1;
        loop {
            let (p, a) = phase.step(SpawnEvent::LabelFinished { created: false });
            phase = p;
            match a {
                SpawnAction::CreateLabel => created += 1,
                SpawnAction::Wait { millis } => {
                    assert_eq!(millis, 1000);
                    break;
                }
                SpawnAction::Ignore | SpawnAction::Halt => panic!("loop stalled"),
            }
        }
        assert_eq!(created, 10);
        assert_eq!(phase, SpawnPhase::Waiting);
    }
}

#[test]
fn failed_and_created_labels_step_alike() {
    let phase = SpawnPhase::Bursting { remaining: 4 };
    assert_eq!(
        phase.step(SpawnEvent::LabelFinished { created: false }),
        phase.step(SpawnEvent::LabelFinished { created: true })
    );
    let last = SpawnPhase::Bursting { remaining: 0 };
    assert_eq!(
        last.step(SpawnEvent::LabelFinished { created: false }),
        (SpawnPhase::Waiting, SpawnAction::Wait { millis: 1000 })
    );
}

#[test]
fn spawn_loop_stops_on_teardown() {
    for phase in [
        SpawnPhase::Idle,
        SpawnPhase::WarmingUp,
        SpawnPhase::Waiting,
        SpawnPhase::Bursting { remaining: 3 },
        SpawnPhase::Stopped,
    ] {
        assert_eq!(
            phase.step(SpawnEvent::TornDown),
            (SpawnPhase::Stopped, SpawnAction::Halt)
        );
    }
    for phase in [SpawnPhase::Waiting, SpawnPhase::Bursting { remaining: 2 }] {
        assert_eq!(
            phase.step(SpawnEvent::PageMisconfigured),
            (SpawnPhase::Stopped, SpawnAction::Halt)
        );
    }
    let (p, a) = SpawnPhase::Stopped.step(SpawnEvent::Started);
    assert_eq!((p, a), (SpawnPhase::Stopped, SpawnAction::Ignore));
    let (p, a) = SpawnPhase::Stopped.step(SpawnEvent::TimerFired { height: 800 });
    assert_eq!((p, a), (SpawnPhase::Stopped, SpawnAction::Ignore));
}

#[test]
fn decimal_and_fixed_text() {
    assert_eq!(decimal_text(0), "0");
    assert_eq!(decimal_text(7), "7");
    assert_eq!(decimal_text(1203), "1203");
    assert_eq!(decimal_text(u64::MAX), "18446744073709551615");
    assert_eq!(fixed_text(110000, 4), "11.0000");
    assert_eq!(fixed_text(5, 2), "0.05");
    assert_eq!(fixed_text(12345, 0), "12345.");
    assert_eq!(signed_fixed_text(-500, 2), "-5.00");
    assert_eq!(signed_fixed_text(10000, 2), "100.00");
    assert_eq!(signed_fixed_text(-7, 2), "-0.07");
    assert_eq!(signed_fixed_text(i64::MIN, 0), "-9223372036854775808.");
}

#[test]
fn bracketed_city_name_forms() {
    assert_eq!(display_name("横浜（神奈川）"), "横浜");
    assert_eq!(title_text("横浜（神奈川）"), "横浜_(神奈川)");
    assert_eq!(display_name("千代田区"), "千代田区");
    assert_eq!(title_text("千代田区"), "千代田区");
    assert_eq!(display_name("（前）後"), "");
    assert_eq!(display_name("a（b）c（d）"), "a");
    assert_eq!(title_text("a（b）c（d）"), "a_(b)c_(d)");
    assert_eq!(display_name(""), "");
    assert_eq!(title_text(""), "");
}

#[test]
fn encyclopedia_and_map_addresses() {
    assert_eq!(
        wiki_url("横浜（神奈川）"),
        "https://ja.wikipedia.org/wiki/横浜_(神奈川)"
    );
    assert_eq!(
        map_url("神奈川県", "横浜（神奈川）"),
        "https://www.google.com/maps?output=embed&q=神奈川県横浜"
    );
}

fn parts(text: &str) -> Option<(bool, Vec<u8>, i128)> {
    Coord::parse(text).map(|c| (c.negative, c.digits, c.exponent))
}

#[test]
fn coordinates_parse_exactly() {
    assert_eq!(parts("35.6940"), Some((false, vec![3, 5, 6, 9, 4, 0], -4)));
    assert_eq!(parts("-0.5"), Some((true, vec![0, 5], -1)));
    assert_eq!(parts("+12"), Some((false, vec![1, 2], 0)));
    assert_eq!(parts("12."), Some((false, vec![1, 2], 0)));
    assert_eq!(parts(".25"), Some((false, vec![2, 5], -2)));
    assert_eq!(
        parts("1234567890.123456789"),
        Some((false, vec![1, 2, 3, 4, 5, 6, 7, 8, 9, 0, 1, 2, 3, 4, 5, 6, 7, 8, 9], -9))
    );
    assert_eq!(parts("abc"), None);
    assert_eq!(parts(""), None);
    assert_eq!(parts("-"), None);
    assert_eq!(parts("."), None);
    assert_eq!(parts("1.2.3"), None);
    assert_eq!(parts(" 1"), None);
    assert_eq!(parts("NaN"), None);
    assert_eq!(parts("inf"), None);
}

#[test]
fn coordinates_with_exponents() {
    assert_eq!(parts("3.569e1"), Some((false, vec![3, 5, 6, 9], -2)));
    assert_eq!(parts("1e5"), Some((false, vec![1], 5)));
    assert_eq!(parts("1E+5"), Some((false, vec![1], 5)));
    assert_eq!(parts("-2.5e-3"), Some((true, vec![2, 5], -4)));
    assert_eq!(parts("1.e2"), Some((false, vec![1], 2)));
    assert_eq!(parts("1e99999999999999999999"), Some((false, vec![1], 1_000_000_000_000_000_000)));
    assert_eq!(parts("1e-99999999999999999999"), Some((false, vec![1], -1_000_000_000_000_000_000)));
    assert_eq!(parts("1e"), None);
    assert_eq!(parts("1e+"), None);
    assert_eq!(parts("e5"), None);
    assert_eq!(parts(".e5"), None);
    assert_eq!(parts("1e5.0"), None);
    assert_eq!(parts("1e5e2"), None);
}

#[test]
fn load_accepts_exponent_coordinates() {
    let s = RecordStore::load("東京都,新宿区,とうきょうと,しんじゅくく,3.569e1,1.397e2\n").unwrap();
    assert_eq!(s.count(), 1);
    let r = s.get(0);
    assert_eq!((r.latitude.digits.clone(), r.latitude.exponent), (vec![3, 5, 6, 9], -2));
    assert_eq!((r.longitude.digits.clone(), r.longitude.exponent), (vec![1, 3, 9, 7], -1));
}

#[test]
fn load_reads_every_row_in_order() {
    let s = store();
    assert_eq!(s.count(), 2);
    assert!(!s.is_empty());
    let first = s.get(0);
    assert_eq!(first.prefecture, "東京都");
    assert_eq!(first.city, "千代田区");
    assert_eq!(first.prefecture_kana, "とうきょうと");
    assert_eq!(first.city_kana, "ちよだく");
    assert_eq!(first.latitude.digits, vec![3, 5, 6, 9, 4, 0]);
    assert_eq!(first.latitude.exponent, -4);
    assert!(!first.latitude.negative);
    assert_eq!(first.longitude.digits, vec![1, 3, 9, 7, 5, 3, 6]);
    assert_eq!(first.longitude.exponent, -4);
    assert_eq!(s.get(1).city, "横浜（神奈川）");
}

#[test]
fn load_treats_first_row_as_data() {
    let s = RecordStore::load("a,b,c,d,1,2\n").unwrap();
    assert_eq!(s.count(), 1);
    assert_eq!(s.get(0).prefecture, "a");
}

#[test]
fn load_of_empty_text_is_empty() {
    let s = RecordStore::load("").unwrap();
    assert_eq!(s.count(), 0);
    assert!(s.is_empty());
}

#[test]
fn load_refuses_non_numeric_latitude() {
    let text = "a,b,c,d,1,2\ne,f,g,h,north,2\ni,j,k,l,3,4\n";
    assert_eq!(RecordStore::load(text).err(), Some(LoadError::BadRow { row: 1 }));
}

#[test]
fn load_refuses_non_numeric_longitude() {
    let text = "a,b,c,d,1,x\n";
    assert_eq!(RecordStore::load(text).err(), Some(LoadError::BadRow { row: 0 }));
}

#[test]
fn load_refuses_rows_of_wrong_width() {
    let text = "a,b,c,d,1\ne,f,g,h,2\n";
    assert_eq!(RecordStore::load(text).err(), Some(LoadError::BadRow { row: 0 }));
}

#[test]
fn load_refuses_malformed_csv() {
    let text = "a,b,c,d,1,2\ne,f,g\n";
    assert_eq!(RecordStore::load(text).err(), Some(LoadError::Malformed));
}

#[test]
fn from_rows_builds_records() {
    let rows = vec![vec![
        "p".to_string(),
        "c".to_string(),
        "pk".to_string(),
        "ck".to_string(),
        "-1.5".to_string(),
        "2".to_string(),
    ]];
    let s = RecordStore::from_rows(&rows).unwrap();
    assert!(s.get(0).latitude.negative);
    assert_eq!(s.get(0).latitude.digits, vec![1, 5]);
    assert_eq!(s.get(0).latitude.exponent, -1);
    let bad = vec![vec!["p".to_string()]];
    assert_eq!(RecordStore::from_rows(&bad).err(), Some(LoadError::BadRow { row: 0 }));
}

#[test]
fn sampled_index_lies_in_store() {
    for count in 1..50usize {
        for _ in 0..20 {
            assert!(sample_index(count) < count);
        }
    }
    assert_eq!(sample_index(1), 0);
}

#[test]
fn sampled_params_lie_in_ranges() {
    for _ in 0..1000 {
        let p = sample_visual_params();
        assert!((1..=4).contains(&p.size_tier));
        assert!((800..=1500).contains(&p.speed_permille));
        assert!((-500..=10000).contains(&p.offset_hundredths));
    }
}

#[test]
fn visual_params_checked_on_construction() {
    assert!(VisualParams::new(1, 800, -500).is_some());
    assert!(VisualParams::new(4, 1500, 10000).is_some());
    assert!(VisualParams::new(0, 1000, 0).is_none());
    assert!(VisualParams::new(5, 1000, 0).is_none());
    assert!(VisualParams::new(2, 799, 0).is_none());
    assert!(VisualParams::new(2, 1501, 0).is_none());
    assert!(VisualParams::new(2, 1000, -501).is_none());
    assert!(VisualParams::new(2, 1000, 10001).is_none());
}

#[test]
fn label_class_and_style() {
    assert_eq!(class_text(3), "citiescrowl_text citiescrowl_text3");
    let p = VisualParams::new(2, 1000, -500).unwrap();
    assert_eq!(duration_ten_thousandths(p), 110000);
    assert_eq!(style_text(p), "top: -5.00vh; animation-duration: 11.0000s;");
    let q = VisualParams::new(4, 1500, 10000).unwrap();
    assert_eq!(duration_ten_thousandths(q), 180000);
    assert_eq!(style_text(q), "top: 100.00vh; animation-duration: 18.0000s;");
    let r = VisualParams::new(1, 800, 1234).unwrap();
    assert_eq!(style_text(r), "top: 12.34vh; animation-duration: 8.4000s;");
    assert_eq!(label_target(), "trigger");
}

#[test]
fn label_shows_its_record() {
    let s = store();
    let p = VisualParams::new(1, 1200, 50).unwrap();
    let l = Label::new(&s, 1, p);
    assert_eq!(l.record_index, 1);
    assert_eq!(l.text, "横浜（神奈川）");
    assert_eq!(l.class_name, "citiescrowl_text citiescrowl_text1");
    assert_eq!(l.style, "top: 0.50vh; animation-duration: 12.6000s;");
    for _ in 0..100 {
        let l = Label::sample(&s);
        assert!(l.record_index < 2);
        assert_eq!(l.text, s.get(l.record_index).city);
    }
}

#[test]
fn click_fills_the_panel() {
    let s = store();
    let h = ClickHandler::new(1);
    let p = h.panel(&s);
    assert_eq!(p.city, "横浜");
    assert_eq!(p.prefecture, "神奈川県");
    assert_eq!(p.city_kana, "よこはま");
    assert_eq!(p.map_src, "https://www.google.com/maps?output=embed&q=神奈川県横浜");
    assert_eq!(p.wiki_href, "https://ja.wikipedia.org/wiki/横浜_(神奈川)");
    assert_eq!(s.get(1).city, "横浜（神奈川）");
    let q = detail_panel(s.get(0));
    assert_eq!(q.city, "千代田区");
    assert_eq!(q.wiki_href, "https://ja.wikipedia.org/wiki/千代田区");
}

#[test]
fn label_present_until_lifetime_is_over() {
    let e = Expiry::schedule(1000, LABEL_LIFETIME_MILLIS);
    assert_eq!(LABEL_LIFETIME_MILLIS, 20000);
    assert!(e.is_present(0));
    assert!(e.is_present(1000));
    assert!(e.is_present(20999));
    assert!(!e.is_present(21000));
    assert!(!e.is_present(50000));
    assert_eq!(e.remaining(1000), 20000);
    assert_eq!(e.remaining(0), 21000);
    assert_eq!(e.remaining(21000), 0);
}

#[test]
fn label_removed_exactly_once() {
    let mut e = Expiry::schedule(1000, 20000);
    assert!(!e.fire(20999));
    assert!(!e.removed);
    assert!(e.fire(21000));
    assert!(e.removed);
    assert!(!e.fire(21000));
    assert!(!e.fire(90000));
}

#[test]
fn remaining_saturates() {
    let e = Expiry::schedule(u64::MAX, u64::MAX);
    assert_eq!(e.remaining(0), u64::MAX);
}

#[test]
fn dataset_address_and_url() {
    assert_eq!(
        dataset_address(default_host()),
        "https://ddhr36ot0te3x.cloudfront.net/city_names.csv"
    );
    let url = dataset_url(default_host()).unwrap();
    assert_eq!(url.path(), "/city_names.csv");
    assert!(dataset_url("not a url").is_none());
}

use rust_printer::job::{Color, Duplex, Job, Orientation, Size};

#[test]
fn size_paper_ids() {
    assert_eq!(i16::from(Size::A3), 8);
    assert_eq!(i16::from(Size::A4), 9);
}

#[test]
fn size_code_roundtrip() {
    for s in [Size::A3, Size::A4] {
        assert_eq!(Size::try_from(i16::from(s)), Ok(s));
    }
    for v in [-1i16, 0, 7, 8, 9, 10, 26] {
        if let Ok(s) = Size::try_from(v) {
            assert_eq!(i16::from(s), v);
        }
    }
}

#[test]
fn size_from_unknown_code() {
    assert_eq!(Size::try_from(26i16), Err("Size Error"));
}

#[test]
fn color_codes() {
    assert_eq!(Color::try_from(1i16), Ok(Color::BW));
    assert_eq!(Color::try_from(2i16), Ok(Color::COLOR));
    assert_eq!(Color::try_from(3i16), Err("Size Error"));
}

#[test]
fn orientation_codes() {
    assert_eq!(Orientation::try_from(1i16), Ok(Orientation::PORTRAIT));
    assert_eq!(Orientation::try_from(2i16), Ok(Orientation::LANDSCAPE));
    assert_eq!(Orientation::try_from(0i16), Err("Size Error"));
}

#[test]
fn duplex_codes() {
    assert_eq!(Duplex::try_from(1i16), Ok(Duplex::SIMPLEX));
    assert_eq!(Duplex::try_from(2i16), Ok(Duplex::DUPLEX_LONG_EDGE));
    assert_eq!(Duplex::try_from(3i16), Ok(Duplex::DUPLEX_SHORT_EDGE));
    assert_eq!(Duplex::try_from(4i16), Err("Duplex Error"));
}

#[test]
fn default_job() {
    let job = Job::default();
    assert_eq!(job.id, 0);
    assert_eq!(job.name, "");
    assert_eq!(job.color, Color::BW);
    assert_eq!(job.number, 0);
    assert_eq!(job.copies, 0);
    assert_eq!(job.color_map, "");
    assert_eq!(job.paper_size, Size::A3);
    assert_eq!(job.direction, Orientation::PORTRAIT);
    assert_eq!(job.duplex, Duplex::SIMPLEX);
}

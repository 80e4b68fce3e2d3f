use restate_core::log::{Bifrost, LogError, Record, TrimGap};

fn payload(s: &str) -> Vec<u8> {
    s.as_bytes().to_vec()
}

#[test]
fn three_records_read_in_append_order() {
    // scenario: append "A","B","C"; a reader from 0 sees them at 1,2,3
    let mut bifrost = Bifrost::new(1);
    assert_eq!(Ok(1), bifrost.append(0, payload("A")));
    assert_eq!(Ok(2), bifrost.append(0, payload("B")));
    assert_eq!(Ok(3), bifrost.append(0, payload("C")));

    let mut reader = bifrost.create_reader(0, 0);
    assert_eq!(0, reader.current_read_pointer());

    for (expected_offset, expected_payload) in [(1, "A"), (2, "B"), (3, "C")] {
        let record = reader.read_next_opt(&bifrost).unwrap().unwrap();
        assert_eq!(expected_offset, record.offset);
        assert_eq!(Record::Data(payload(expected_payload)), record.record);
        assert_eq!(expected_offset, reader.current_read_pointer());
    }
    // nothing further on an open log
    assert_eq!(Ok(None), reader.read_next_opt(&bifrost));
    assert_eq!(3, reader.current_read_pointer());
}

#[test]
fn reader_beyond_end_waits_for_the_sixth_record() {
    // scenario: a reader positioned after 5 on an empty log sees nothing
    // until a record with offset 6 exists
    let mut bifrost = Bifrost::new(1);
    let mut reader = bifrost.create_reader(0, 5);
    assert_eq!(5, reader.current_read_pointer());

    assert_eq!(Ok(None), reader.read_next_opt(&bifrost));
    assert_eq!(5, reader.current_read_pointer());

    for i in 1..=5 {
        assert_eq!(Ok(i), bifrost.append(0, payload("r")));
    }
    // five records are not enough: offsets 1..=5 are at or below the pointer
    assert_eq!(Ok(None), reader.read_next_opt(&bifrost));
    assert_eq!(5, reader.current_read_pointer());

    assert_eq!(Ok(6), bifrost.append(0, payload("six")));
    let record = reader.read_next_opt(&bifrost).unwrap().unwrap();
    assert_eq!(6, record.offset);
    assert_eq!(Record::Data(payload("six")), record.record);
    assert_eq!(6, reader.current_read_pointer());
}

#[test]
fn trim_surfaces_as_one_gap_and_fast_forwards() {
    // boundary: trimming past the reader's position yields one trim gap
    // with `until` at least the trim argument, and the pointer lands on it
    let mut bifrost = Bifrost::new(1);
    for s in ["A", "B", "C", "D"] {
        bifrost.append(0, payload(s)).unwrap();
    }
    let mut reader = bifrost.create_reader(0, 0);
    let first = reader.read_next_opt(&bifrost).unwrap().unwrap();
    assert_eq!(1, first.offset);

    bifrost.trim(0, 3).unwrap();
    let gap = reader.read_next_opt(&bifrost).unwrap().unwrap();
    assert_eq!(Record::TrimGap(TrimGap { until: 3 }), gap.record);
    assert_eq!(3, reader.current_read_pointer());

    // the next read resumes beyond everything trimmed
    let after = reader.read_next_opt(&bifrost).unwrap().unwrap();
    assert_eq!(4, after.offset);
    assert_eq!(Record::Data(payload("D")), after.record);
}

#[test]
fn trim_point_only_moves_forward() {
    let mut bifrost = Bifrost::new(1);
    for s in ["A", "B", "C"] {
        bifrost.append(0, payload(s)).unwrap();
    }
    bifrost.trim(0, 2).unwrap();
    // a smaller trim argument changes nothing
    bifrost.trim(0, 1).unwrap();
    let mut reader = bifrost.create_reader(0, 0);
    let gap = reader.read_next_opt(&bifrost).unwrap().unwrap();
    assert_eq!(Record::TrimGap(TrimGap { until: 2 }), gap.record);
    // trimming beyond the end clamps to the last record
    bifrost.trim(0, 100).unwrap();
    let gap = reader.read_next_opt(&bifrost).unwrap().unwrap();
    assert_eq!(Record::TrimGap(TrimGap { until: 3 }), gap.record);
}

#[test]
fn sealed_log_refuses_appends_and_ends_reads() {
    let mut bifrost = Bifrost::new(1);
    bifrost.append(0, payload("A")).unwrap();
    bifrost.seal(0).unwrap();

    assert_eq!(Err(LogError::Sealed), bifrost.append(0, payload("B")));

    let mut reader = bifrost.create_reader(0, 0);
    let record = reader.read_next_opt(&bifrost).unwrap().unwrap();
    assert_eq!(Record::Data(payload("A")), record.record);

    // past the last record a sealed log answers at once with the seal
    let eof = reader.read_next_opt(&bifrost).unwrap().unwrap();
    assert_eq!(Record::Seal, eof.record);
    assert_eq!(1, reader.current_read_pointer());
    // and keeps answering it without moving the pointer
    let eof = reader.read_next_opt(&bifrost).unwrap().unwrap();
    assert_eq!(Record::Seal, eof.record);
    assert_eq!(1, reader.current_read_pointer());
}

#[test]
fn unknown_log_is_refused() {
    let mut bifrost = Bifrost::new(2);
    assert_eq!(Err(LogError::UnknownLogId), bifrost.append(7, payload("A")));
    assert_eq!(Err(LogError::UnknownLogId), bifrost.trim(7, 1));
    assert_eq!(Err(LogError::UnknownLogId), bifrost.seal(7));
    let mut reader = bifrost.create_reader(7, 0);
    assert_eq!(Err(LogError::UnknownLogId), reader.read_next_opt(&bifrost));
}

#[test]
fn logs_are_independent() {
    let mut bifrost = Bifrost::new(2);
    bifrost.append(0, payload("zero")).unwrap();
    bifrost.append(1, payload("one")).unwrap();
    let mut r0 = bifrost.create_reader(0, 0);
    let mut r1 = bifrost.create_reader(1, 0);
    assert_eq!(
        Record::Data(payload("zero")),
        r0.read_next_opt(&bifrost).unwrap().unwrap().record
    );
    assert_eq!(
        Record::Data(payload("one")),
        r1.read_next_opt(&bifrost).unwrap().unwrap().record
    );
}

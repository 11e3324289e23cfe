use wstd::host::{Host, StreamRead, StreamStatus};
use wstd::http::{Body, IntoBody};
use wstd::io::{
    copy, repeat, AsyncRead, AsyncWrite, Cursor, Empty, ErrorKind, InputStream, OutputStream,
    SeekFrom,
};

/// A host with in-memory byte sources and capacity-limited byte sinks.
struct StreamHost {
    next: u64,
    sources: Vec<(u64, Vec<u8>)>,
    sinks: Vec<(u64, Vec<u8>, Option<usize>)>,
    counting: Vec<(u64, u64)>,
    failing: Option<u64>,
}

impl StreamHost {
    fn new() -> StreamHost {
        StreamHost {
            next: 1,
            sources: Vec::new(),
            sinks: Vec::new(),
            counting: Vec::new(),
            failing: None,
        }
    }

    fn new_source(&mut self, bytes: Vec<u8>) -> u64 {
        let h = self.next;
        self.next += 1;
        self.sources.push((h, bytes));
        h
    }

    fn new_sink(&mut self, capacity: Option<usize>) -> u64 {
        let h = self.next;
        self.next += 1;
        self.sinks.push((h, Vec::new(), capacity));
        h
    }

    /// A sink that swallows and counts bytes without holding them.
    fn new_counting_sink(&mut self) -> u64 {
        let h = self.next;
        self.next += 1;
        self.counting.push((h, 0));
        h
    }

    fn counted(&self, h: u64) -> u64 {
        self.counting.iter().find(|s| s.0 == h).map(|s| s.1).unwrap_or(0)
    }

    fn sink_bytes(&self, h: u64) -> Vec<u8> {
        self.sinks.iter().find(|s| s.0 == h).map(|s| s.1.clone()).unwrap_or_default()
    }

    fn source_mut(&mut self, h: u64) -> Option<&mut Vec<u8>> {
        self.sources.iter_mut().find(|s| s.0 == h).map(|s| &mut s.1)
    }

    fn sink_room(&self, h: u64) -> usize {
        match self.sinks.iter().find(|s| s.0 == h) {
            Some((_, got, Some(cap))) => cap.saturating_sub(got.len()),
            Some((_, _, None)) => usize::MAX,
            None => 0,
        }
    }

    fn sink_accept(&mut self, h: u64, bytes: &[u8]) {
        if let Some(s) = self.sinks.iter_mut().find(|s| s.0 == h) {
            s.1.extend_from_slice(bytes);
        }
    }
}

impl Host for StreamHost {
    fn now(&self) -> u64 {
        0
    }

    fn wall_now(&self) -> (u64, u32) {
        (0, 0)
    }

    fn block_until_ready(&mut self, handles: &Vec<u64>) -> Vec<usize> {
        if handles.is_empty() {
            Vec::new()
        } else {
            vec![0]
        }
    }

    fn dispose(&mut self, _handle: u64) {}

    fn subscribe_at(&mut self, _deadline: u64) -> u64 {
        let h = self.next;
        self.next += 1;
        h
    }

    fn subscribe_after(&mut self, _duration: u64) -> u64 {
        let h = self.next;
        self.next += 1;
        h
    }

    fn splice(&mut self, dest: u64, src: u64, max: u64) -> StreamStatus {
        let taken: Vec<u8> = match self.source_mut(src) {
            Some(bytes) => {
                if bytes.is_empty() {
                    return StreamStatus::Closed;
                }
                let n = bytes.len().min(max as usize);
                bytes.drain(0..n).collect()
            },
            None => return StreamStatus::Closed,
        };
        self.sink_accept(dest, &taken);
        StreamStatus::Transferred(taken.len() as u64)
    }

    fn skip(&mut self, src: u64, max: u64) -> StreamStatus {
        match self.source_mut(src) {
            Some(bytes) => {
                if bytes.is_empty() {
                    return StreamStatus::Closed;
                }
                let n = bytes.len().min(max as usize);
                bytes.drain(0..n);
                StreamStatus::Transferred(n as u64)
            },
            None => StreamStatus::Closed,
        }
    }

    fn write_constant(&mut self, dest: u64, byte: u8, max: u64) -> StreamStatus {
        if let Some(c) = self.counting.iter_mut().find(|s| s.0 == dest) {
            c.1 = c.1.saturating_add(max);
            return StreamStatus::Transferred(max);
        }
        let _ = byte;
        let room = self.sink_room(dest).min(max as usize);
        if room == 0 {
            return StreamStatus::Closed;
        }
        let run = vec![byte; room];
        self.sink_accept(dest, &run);
        StreamStatus::Transferred(room as u64)
    }

    fn read_stream(&mut self, src: u64, max: u64) -> StreamRead {
        if self.failing == Some(src) {
            return StreamRead::Failed("host reports a broken source".to_string());
        }
        match self.source_mut(src) {
            Some(bytes) => {
                if bytes.is_empty() {
                    return StreamRead::Closed;
                }
                let n = bytes.len().min(max as usize);
                let taken: Vec<u8> = bytes.drain(0..n).collect();
                StreamRead::Data(taken)
            },
            None => StreamRead::Closed,
        }
    }

    fn write_stream(&mut self, dest: u64, data: &[u8]) -> StreamStatus {
        let room = self.sink_room(dest).min(data.len());
        if room == 0 {
            return StreamStatus::Closed;
        }
        self.sink_accept(dest, &data[0..room]);
        StreamStatus::Transferred(room as u64)
    }
}

#[test]
fn copy_cursor_to_cursor_round_trips() {
    let mut h = StreamHost::new();
    let mut src = Cursor::new(vec![1, 2, 3, 4, 5]);
    let mut dst = Cursor::new(Vec::new());
    assert!(copy(&mut h, &mut src, &mut dst).is_ok());
    assert_eq!(dst.into_inner(), vec![1, 2, 3, 4, 5]);
}

#[test]
fn copy_large_buffer_round_trips_across_chunks() {
    let mut h = StreamHost::new();
    let data: Vec<u8> = (0..5000u32).map(|i| (i % 251) as u8).collect();
    let mut src = Cursor::new(data.clone());
    let mut dst = Cursor::new(Vec::new());
    assert!(copy(&mut h, &mut src, &mut dst).is_ok());
    assert_eq!(dst.into_inner(), data);
}

#[test]
fn copy_splices_handle_to_handle() {
    let mut h = StreamHost::new();
    let s = h.new_source(vec![9, 8, 7, 6]);
    let d = h.new_sink(None);
    let mut reader = InputStream::new(s);
    let mut writer = OutputStream::new(d);
    assert!(copy(&mut h, &mut reader, &mut writer).is_ok());
    assert_eq!(h.sink_bytes(d), vec![9, 8, 7, 6]);
}

#[test]
fn copy_skips_into_a_discarding_sink() {
    let mut h = StreamHost::new();
    let s = h.new_source(vec![1; 100]);
    let mut reader = InputStream::new(s);
    let mut writer = Empty;
    assert!(copy(&mut h, &mut reader, &mut writer).is_ok());
    assert!(h.source_mut(s).unwrap().is_empty());
}

#[test]
fn copy_handle_source_into_cursor() {
    let mut h = StreamHost::new();
    let s = h.new_source(vec![4, 5, 6]);
    let mut reader = InputStream::new(s);
    let mut dst = Cursor::new(Vec::new());
    assert!(copy(&mut h, &mut reader, &mut dst).is_ok());
    assert_eq!(dst.into_inner(), vec![4, 5, 6]);
}

#[test]
fn copy_constant_fill_transfers_the_constant() {
    let mut h = StreamHost::new();
    let d = h.new_sink(Some(10));
    let mut reader = repeat(7);
    let mut writer = OutputStream::new(d);
    let r = copy(&mut h, &mut reader, &mut writer);
    // a closed destination is an error for an endless source
    assert_eq!(r.unwrap_err().kind, ErrorKind::ConnectionReset);
    assert_eq!(h.sink_bytes(d), vec![7; 10]);
}

#[test]
fn copy_constant_fill_reports_an_exhausted_transfer_bound() {
    let mut h = StreamHost::new();
    let d = h.new_counting_sink();
    let mut reader = repeat(1);
    let mut writer = OutputStream::new(d);
    let e = copy(&mut h, &mut reader, &mut writer).unwrap_err();
    assert_eq!(e.kind, ErrorKind::WriteZero);
    assert_eq!(h.counted(d), u64::MAX);
}

#[test]
fn copy_constant_prefix_by_fallback_matches() {
    let mut h = StreamHost::new();
    let mut src = Cursor::new(vec![7; 10]);
    let mut dst = Cursor::new(Vec::new());
    assert!(copy(&mut h, &mut src, &mut dst).is_ok());
    assert_eq!(dst.into_inner(), vec![7; 10]);
}

#[test]
fn copy_reports_the_host_diagnostic_verbatim() {
    let mut h = StreamHost::new();
    let s = h.new_source(vec![1, 2, 3]);
    h.failing = Some(s);
    let mut reader = InputStream::new(s);
    let mut dst = Cursor::new(Vec::new());
    let e = copy(&mut h, &mut reader, &mut dst).unwrap_err();
    assert_eq!(e.kind, ErrorKind::Other);
    assert_eq!(e.message, "host reports a broken source");
}

#[test]
fn cursor_seek_end_relative_reads_the_last_byte() {
    let mut h = StreamHost::new();
    let mut c = Cursor::new(vec![1, 2, 3]);
    let p = c.seek(SeekFrom::End(-1)).unwrap();
    assert_eq!(p, 2);
    let mut buf = vec![0u8; 1];
    let n = c.read(&mut h, &mut buf).unwrap();
    assert_eq!(n, 1);
    assert_eq!(buf, vec![3]);
}

#[test]
fn cursor_seek_to_negative_position_fails() {
    let mut c = Cursor::new(vec![1, 2, 3]);
    let e = c.seek(SeekFrom::End(-4)).unwrap_err();
    assert_eq!(e.kind, ErrorKind::InvalidInput);
    assert_eq!(c.position(), 0);
    let e2 = c.seek(SeekFrom::Current(-1)).unwrap_err();
    assert_eq!(e2.kind, ErrorKind::InvalidInput);
}

#[test]
fn cursor_read_at_end_yields_zero() {
    let mut h = StreamHost::new();
    let mut c = Cursor::new(vec![1, 2]);
    c.set_position(2);
    let mut buf = vec![0u8; 4];
    assert_eq!(c.read(&mut h, &mut buf).unwrap(), 0);
}

#[test]
fn cursor_write_past_end_fills_the_gap_with_zeroes() {
    let mut h = StreamHost::new();
    let mut c = Cursor::new(Vec::new());
    c.set_position(3);
    let n = c.write(&mut h, &[9, 9]).unwrap();
    assert_eq!(n, 2);
    assert_eq!(c.position(), 5);
    assert_eq!(c.into_inner(), vec![0, 0, 0, 9, 9]);
}

#[test]
fn cursor_write_overwrites_at_the_position() {
    let mut h = StreamHost::new();
    let mut c = Cursor::new(vec![1, 2, 3, 4]);
    c.set_position(1);
    assert_eq!(c.write(&mut h, &[8, 8]).unwrap(), 2);
    assert_eq!(c.into_inner(), vec![1, 8, 8, 4]);
}

#[test]
fn repeat_fills_the_whole_buffer() {
    let mut h = StreamHost::new();
    let mut rep = repeat(3);
    let mut buf = vec![0u8; 4];
    assert_eq!(rep.read(&mut h, &mut buf).unwrap(), 4);
    assert_eq!(buf, vec![3, 3, 3, 3]);
    assert_eq!(AsyncRead::<StreamHost>::as_repeated_value(&rep), Some(3));
}

#[test]
fn empty_reads_nothing_and_discards_everything() {
    let mut h = StreamHost::new();
    let mut e = Empty;
    let mut buf = vec![5u8; 3];
    assert_eq!(AsyncRead::<StreamHost>::read(&mut e, &mut h, &mut buf).unwrap(), 0);
    assert_eq!(buf, vec![5, 5, 5]);
    assert_eq!(AsyncWrite::<StreamHost>::write(&mut e, &mut h, &[1, 2, 3]).unwrap(), 3);
    assert!(AsyncWrite::<StreamHost>::ignores_input(&e));
}

#[test]
fn get_mut_and_set_position_cooperate() {
    let mut c = Cursor::new(vec![1, 2, 3]);
    c.get_mut().push(4);
    c.set_position(9);
    assert_eq!(c.position(), 9);
    assert_eq!(c.get_ref().clone(), vec![1, 2, 3, 4]);
}

#[test]
fn bounded_body_reports_its_remaining_length() {
    let mut h = StreamHost::new();
    let mut b = IntoBody::<StreamHost>::into_body("abc");
    assert_eq!(Body::<StreamHost>::len(&b), Some(3));
    assert!(!Body::<StreamHost>::is_empty(&b));
    let mut buf = vec![0u8; 2];
    assert_eq!(b.read(&mut h, &mut buf).unwrap(), 2);
    assert_eq!(buf, vec![b'a', b'b']);
    assert_eq!(Body::<StreamHost>::len(&b), Some(1));
    assert_eq!(b.read(&mut h, &mut buf).unwrap(), 1);
    // fully drained: the known length reaches zero and exactly then the
    // body reports empty
    assert_eq!(Body::<StreamHost>::len(&b), Some(0));
    assert!(Body::<StreamHost>::is_empty(&b));
}

#[test]
fn empty_body_is_known_empty() {
    let e = Empty;
    assert_eq!(Body::<StreamHost>::len(&e), Some(0));
    assert!(Body::<StreamHost>::is_empty(&e));
}

#[test]
fn string_and_vec_bodies_hold_their_bytes() {
    let mut h = StreamHost::new();
    let mut b = IntoBody::<StreamHost>::into_body(String::from("xyz"));
    let mut dst = Cursor::new(Vec::new());
    assert!(copy(&mut h, &mut b, &mut dst).is_ok());
    assert_eq!(dst.into_inner(), vec![b'x', b'y', b'z']);
    let mut b2 = IntoBody::<StreamHost>::into_body(vec![1u8, 2u8]);
    let mut dst2 = Cursor::new(Vec::new());
    assert!(copy(&mut h, &mut b2, &mut dst2).is_ok());
    assert_eq!(dst2.into_inner(), vec![1, 2]);
}

use xx_core::async_std::io::buf_reader::{BufReader, ReadStep};
use xx_core::async_std::io::buf_writer::{BufWriter, WriteStep};
use xx_core::async_std::io::read::{
    finish_append, read_until_after_fill, read_until_step, finish_read_line, AppendError, Lines,
};
use xx_core::async_std::io::seek::{rewind_amount_offsets, skip_amount_offsets};
use xx_core::async_std::io::typed::{read_bytes_outcome, vint_from_bytes, ShortRead};
use xx_core::async_std::io::{
    advance_slices, advance_slices_mut, first_nonempty, length_check, read_into_slice, require_full,
    IoOutcome, ShortTransfer, Transfer, TransferNext, DEFAULT_BUFFER_SIZE,
};

#[test]
fn length_check_returns_len() {
    assert_eq!(length_check(&[1, 2, 3], 2), 2);
    assert_eq!(length_check(&[1, 2, 3], 3), 3);
}

#[test]
fn read_into_slice_copies_what_fits() {
    let mut dst = [0u8; 3];
    assert_eq!(read_into_slice(&mut dst, &[7, 8, 9, 10]), 3);
    assert_eq!(dst, [7, 8, 9]);
    let mut dst = [0u8; 4];
    assert_eq!(read_into_slice(&mut dst, &[5, 6]), 2);
    assert_eq!(dst, [5, 6, 0, 0]);
}

#[test]
fn advance_slices_within_first() {
    assert_eq!(advance_slices(&[4, 4], 3), (0, 3));
}

#[test]
fn advance_slices_skips_whole_buffers() {
    assert_eq!(advance_slices(&[4, 4, 4], 8), (2, 0));
    assert_eq!(advance_slices(&[4, 4, 4], 9), (2, 1));
}

#[test]
fn advance_slices_drops_empty_buffers_after_the_amount() {
    assert_eq!(advance_slices(&[2, 0, 0, 3], 2), (3, 0));
    assert_eq!(advance_slices_mut(&[2, 3], 5), (2, 0));
}

#[test]
fn transfer_moves_until_done() {
    let mut t = Transfer::new(10);
    assert_eq!(t.start(), TransferNext::Continue(0));
    assert_eq!(t.record(IoOutcome::Moved(4)), TransferNext::Continue(4));
    assert_eq!(t.record(IoOutcome::Moved(6)), TransferNext::Stop(10));
}

#[test]
fn transfer_stops_on_eof_and_interrupt() {
    let mut t = Transfer::new(10);
    assert_eq!(t.record(IoOutcome::Moved(3)), TransferNext::Continue(3));
    assert_eq!(t.record(IoOutcome::Moved(0)), TransferNext::Stop(3));
    let mut t = Transfer::new(5);
    assert_eq!(t.record(IoOutcome::Interrupted), TransferNext::Stop(0));
    let mut t = Transfer::new(5);
    assert_eq!(t.record(IoOutcome::Failed), TransferNext::Fail);
}

#[test]
fn transfer_of_empty_buffer_stops_at_once() {
    let t = Transfer::new(0);
    assert_eq!(t.start(), TransferNext::Stop(0));
}

#[test]
fn require_full_rejects_short() {
    assert_eq!(require_full(3, 4), Err(ShortTransfer));
    assert_eq!(require_full(4, 4), Ok(4));
}

#[test]
fn first_nonempty_finds_first() {
    assert_eq!(first_nonempty(&[0, 0, 3, 1]), Some(2));
    assert_eq!(first_nonempty(&[0, 0]), None);
    assert_eq!(first_nonempty(&[]), None);
}

#[test]
fn read_until_step_stops_after_delimiter() {
    let mut out = vec![1u8];
    assert_eq!(read_until_step(b"ab\ncd", b'\n', &mut out), (3, true));
    assert_eq!(out, vec![1u8, b'a', b'b', b'\n']);
}

#[test]
fn read_until_step_takes_all_without_delimiter() {
    let mut out = Vec::new();
    assert_eq!(read_until_step(b"abc", b'\n', &mut out), (3, false));
    assert_eq!(out, b"abc".to_vec());
}

#[test]
fn read_until_after_fill_decides() {
    assert_eq!(read_until_after_fill(2, 5, 10), None);
    assert_eq!(read_until_after_fill(2, 2, 0), Some(None));
    assert_eq!(read_until_after_fill(2, 5, 0), Some(Some(3)));
}

#[test]
fn read_line_strips_the_line_read() {
    let mut a = b"x\nline\r\n".to_vec();
    assert_eq!(finish_read_line::<()>(&mut a, 2, Ok(Some(6))), Ok(Some(6)));
    assert_eq!(a, b"x\nline".to_vec());
    let mut b = b"line\n".to_vec();
    assert_eq!(finish_read_line::<()>(&mut b, 0, Ok(Some(5))), Ok(Some(5)));
    assert_eq!(b, b"line".to_vec());
    let mut c = b"line\r".to_vec();
    assert_eq!(finish_read_line::<()>(&mut c, 0, Ok(Some(5))), Ok(Some(5)));
    assert_eq!(c, b"line\r".to_vec());
    let mut d = b"a\r".to_vec();
    d.push(b'\n');
    assert_eq!(finish_read_line::<()>(&mut d, 2, Ok(Some(1))), Ok(Some(1)));
    assert_eq!(d, b"a\r".to_vec());
}

#[test]
fn read_line_at_eof_leaves_the_string() {
    let mut a = b"done\n".to_vec();
    assert_eq!(finish_read_line::<()>(&mut a, 5, Ok(None)), Ok(None));
    assert_eq!(a, b"done\n".to_vec());
    let mut b = b"ok\nxx".to_vec();
    assert_eq!(finish_read_line(&mut b, 3, Err(1u8)), Err(AppendError::Read(1u8)));
    assert_eq!(b, b"ok\n".to_vec());
    let mut c = vec![b'o', 0xff, b'\n'];
    assert_eq!(finish_read_line::<()>(&mut c, 1, Ok(Some(2))), Err(AppendError::InvalidUtf8));
    assert_eq!(c, b"o".to_vec());
}

#[test]
fn finish_append_keeps_valid_utf8() {
    let mut buf = b"ab".to_vec();
    buf.extend_from_slice("é".as_bytes());
    assert_eq!(finish_append::<()>(&mut buf, 2, Ok(Some(2))), Ok(Some(2)));
    assert_eq!(buf, "abé".as_bytes().to_vec());
}

#[test]
fn finish_append_cuts_invalid_utf8() {
    let mut buf = b"ab".to_vec();
    buf.push(0xff);
    assert_eq!(finish_append::<()>(&mut buf, 2, Ok(Some(1))), Err(AppendError::InvalidUtf8));
    assert_eq!(buf, b"ab".to_vec());
}

#[test]
fn finish_append_cuts_on_eof_and_error() {
    let mut buf = b"abc".to_vec();
    assert_eq!(finish_append::<()>(&mut buf, 1, Ok(None)), Ok(None));
    assert_eq!(buf, b"a".to_vec());
    let mut buf = b"abc".to_vec();
    assert_eq!(finish_append(&mut buf, 2, Err(7u8)), Err(AppendError::Read(7u8)));
    assert_eq!(buf, b"ab".to_vec());
}

#[test]
fn lines_wraps_reader() {
    let lines = Lines::new(5u8);
    assert_eq!(lines.0, 5u8);
}

#[test]
fn rewind_offsets_small_and_large() {
    assert_eq!(rewind_amount_offsets(5), vec![-5i64]);
    assert_eq!(rewind_amount_offsets(i64::MAX as u64), vec![-i64::MAX]);
    assert_eq!(rewind_amount_offsets(u64::MAX), vec![i64::MIN, -i64::MAX]);
    let big = (1u64 << 63) + 10;
    assert_eq!(rewind_amount_offsets(big), vec![i64::MIN, -10]);
}

#[test]
fn skip_offsets_small_and_large() {
    assert_eq!(skip_amount_offsets(5), vec![5i64]);
    assert_eq!(skip_amount_offsets(u64::MAX), vec![i64::MAX, i64::MAX, 1]);
    let big = (1u64 << 63) + 10;
    assert_eq!(skip_amount_offsets(big), vec![i64::MAX, 11]);
}

#[test]
fn vint_little_endian() {
    let bytes = [0x34u8, 0x12, 0xff, 0xff];
    assert_eq!(vint_from_bytes(&bytes, 2, true), 0x1234);
    assert_eq!(vint_from_bytes(&bytes, 0, true), 0);
}

#[test]
fn vint_big_endian() {
    let bytes = [0x12u8, 0x34, 0x56, 0xff];
    assert_eq!(vint_from_bytes(&bytes, 3, false), 0x123456);
    let full = [0xffu8; 16];
    assert_eq!(vint_from_bytes(&full, 16, false), u128::MAX);
}

#[test]
fn read_bytes_outcome_rejects_partial() {
    assert_eq!(read_bytes_outcome(0, 4), Ok(0));
    assert_eq!(read_bytes_outcome(4, 4), Ok(4));
    assert_eq!(read_bytes_outcome(2, 4), Err(ShortRead));
}

#[test]
fn buf_reader_read_until_buffered() {
    let mut reader = BufReader::from_parts((), b"ab\ncd".to_vec(), 0);
    let mut out = Vec::new();
    assert!(reader.read_until_buffered(b'\n', &mut out));
    assert_eq!(out, b"ab\n".to_vec());
    assert_eq!(reader.buffer(), b"cd");
    assert!(!reader.read_until_buffered(b'\n', &mut out));
    assert_eq!(out, b"ab\ncd".to_vec());
    assert!(reader.buffer().is_empty());
}

#[test]
fn buf_reader_get_buffered_bytes() {
    let mut reader = BufReader::from_parts((), vec![1u8, 2, 3, 4, 5], 0);
    let mut bytes = [0u8; 4];
    assert!(reader.get_buffered_bytes(&mut bytes, 2));
    assert_eq!(bytes, [1, 2, 3, 4]);
    assert_eq!(reader.buffer(), &[3u8, 4, 5]);
    let mut more = [0u8; 4];
    assert!(!reader.get_buffered_bytes(&mut more, 4));
    assert_eq!(more, [0u8; 4]);
}

#[test]
fn buf_reader_consume_then_unconsume() {
    let mut reader = BufReader::from_parts((), vec![1u8, 2, 3], 0);
    reader.consume(2);
    assert_eq!(reader.position(), 2);
    assert_eq!(reader.buffer(), &[3u8]);
    reader.unconsume(2);
    assert_eq!(reader.buffer(), &[1u8, 2, 3]);
}

#[test]
fn buf_reader_read_step_and_fill() {
    let mut reader = BufReader::with_capacity((), 8);
    assert_eq!(reader.read_step(4), ReadStep::Fill);
    assert_eq!(reader.read_step(100), ReadStep::Direct);
    assert_eq!(reader.finish_fill_buf(b"hey"), 3);
    assert_eq!(reader.read_step(4), ReadStep::Buffered);
    let mut buf = [0u8; 2];
    assert_eq!(reader.read_into(&mut buf), 2);
    assert_eq!(&buf, b"he");
    assert_eq!(reader.buffer(), b"y");
}

#[test]
fn buf_reader_new_has_default_capacity() {
    let reader = BufReader::new(());
    assert!(reader.capacity() >= DEFAULT_BUFFER_SIZE);
    assert_eq!(reader.spare_capacity(), reader.capacity());
}

#[test]
fn buf_writer_buffers_and_flushes() {
    let mut writer = BufWriter::with_capacity((), 4);
    let cap = writer.spare_capacity();
    assert!(cap >= 4);
    assert_eq!(writer.write_buffered(b"ab"), 2);
    assert_eq!(writer.buffered(), b"ab");
    assert_eq!(writer.write_step(1), WriteStep::Buffered);
    assert_eq!(writer.finish_flush_write(1), Ok(()));
    assert_eq!(writer.buffered(), b"b");
    assert!(writer.finish_flush_write(0).is_err());
    assert_eq!(writer.finish_flush_write(1), Ok(()));
    assert!(writer.buffered().is_empty());
}

use xx_core::async_std::io::read::{ReadToEnd, ReadToEndNext};

#[test]
fn read_to_end_reads_then_probes() {
    let mut buf = vec![9u8];
    let mut state = ReadToEnd::new(&buf);
    let capacity = state.prepare(&mut buf);
    assert!(capacity >= 1);
    assert_eq!(buf.len(), capacity);
    assert_eq!(buf[0], 9);
    let room = capacity - 1;
    let next = state.after_read(&buf, capacity, IoOutcome::Moved(room));
    assert_eq!(next, ReadToEndNext::Probe);
    assert_eq!(state.len, capacity);
    let next = state.after_probe(&mut buf, &[1, 2, 3], IoOutcome::Moved(2));
    assert_eq!(next, ReadToEndNext::Continue);
    assert_eq!(buf.len(), capacity + 2);
    assert_eq!(&buf[capacity..], &[1, 2]);
    assert_eq!(state.after_probe(&mut buf, &[0; 4], IoOutcome::Moved(0)), ReadToEndNext::Stop);
    assert_eq!(state.finish(&mut buf), capacity + 1);
    assert_eq!(buf.len(), capacity + 2);
}

#[test]
fn read_to_end_stops_and_truncates() {
    let mut buf = Vec::with_capacity(16);
    buf.extend_from_slice(b"ab");
    let mut state = ReadToEnd::new(&buf);
    let capacity = state.prepare(&mut buf);
    assert!(capacity >= 16);
    assert_eq!(state.after_read(&buf, capacity, IoOutcome::Moved(3)), ReadToEndNext::Continue);
    assert_eq!(state.after_read(&buf, capacity, IoOutcome::Interrupted), ReadToEndNext::Stop);
    assert_eq!(state.after_read(&buf, capacity, IoOutcome::Failed), ReadToEndNext::Fail);
    assert_eq!(state.finish(&mut buf), 3);
    assert_eq!(buf.len(), 5);
}

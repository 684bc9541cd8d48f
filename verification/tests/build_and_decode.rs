use stackvm::bytecode::{ByteCodeBuf, ByteCodeBufBuilder, OpCode as Oc, OpInfo};

fn build_with(mut f: impl FnMut(&mut ByteCodeBufBuilder)) -> ByteCodeBuf {
    let mut bcbb = ByteCodeBufBuilder::default();
    f(&mut bcbb);
    bcbb.finish()
}

#[test]
fn build_just_push() {
    let bcb = build_with(|bcbb| {
        // push(0)
        bcbb.args[0] = 0;
        bcbb.push_with_args(Oc::PushConst);
    });
    println!("{:?}", &bcb);
}

#[test]
fn build_lengths() {
    let bcb = build_with(|bcbb| {
        bcbb.push_with_args(Oc::TosDown);
        bcbb.args[0] = 7;
        bcbb.push_with_args(Oc::PushConst);
    });
    // one record of one byte, one record of one byte plus an eight-byte word
    assert_eq!(bcb.as_bytecode().bytes_len(), 10);
}

#[test]
fn pack_combines_arity_and_suffix() {
    assert_eq!(OpInfo { args: 1, suffix: 4 }.pack(), 0x14);
    assert_eq!(OpInfo { args: 0, suffix: 3 }.pack(), 0x03);
}

#[test]
fn unpack_splits_byte() {
    let info = OpInfo::unpack(0x14);
    assert_eq!(info.args, 1);
    assert_eq!(info.suffix, 4);
    let info = OpInfo::unpack(0x03);
    assert_eq!(info.args, 0);
    assert_eq!(info.suffix, 3);
}

#[test]
fn encode_decode_catalog() {
    let ops = [
        Oc::TosDown,
        Oc::WrapAddStack,
        Oc::DecStack,
        Oc::SysOut,
        Oc::PushConst,
        Oc::Load,
        Oc::Store,
        Oc::JmpTo,
        Oc::IfNzJmp,
    ];
    for op in ops {
        assert_eq!(Oc::decode(op.encode()), Some(op));
    }
    assert_eq!(Oc::PushConst.encode(), 0x10);
    assert_eq!(Oc::decode(0x0f), None);
    assert_eq!(Oc::decode(0xff), None);
    assert_eq!(Oc::PushConst.word_args(), 1);
    assert_eq!(Oc::TosDown.word_args(), 0);
}

#[test]
fn record_round_trip_through_reader() {
    // encode one instruction and decode it back from its record's start
    let bcb = build_with(|bcbb| {
        bcbb.args[0] = 0x0123_4567_89ab_cdef;
        bcbb.push_with_args(Oc::PushConst);
    });
    let bc = bcb.as_bytecode();
    assert_eq!(bc.read_op_code_at(0), Some(Oc::PushConst));
    assert_eq!(bc.read_word_at(1), Some(0x0123_4567_89ab_cdef));
}

#[test]
fn word_is_little_endian() {
    let buf = ByteCodeBuf::from_bytes(vec![0xef, 0xcd, 0xab, 0x89, 0x67, 0x45, 0x23, 0x01]);
    assert_eq!(buf.as_bytecode().read_word_at(0), Some(0x0123_4567_89ab_cdef));
}

#[test]
fn reads_out_of_range_fail() {
    let buf = ByteCodeBuf::from_bytes(vec![0x10, 1, 2, 3]);
    let bc = buf.as_bytecode();
    // the opcode byte is fine, but no full word follows it
    assert_eq!(bc.read_op_code_at(0), Some(Oc::PushConst));
    assert_eq!(bc.read_word_at(1), None);
    assert_eq!(bc.read_op_code_at(9), None);
}

#[test]
fn default_builder_is_empty() {
    let bcb = ByteCodeBufBuilder::default().finish();
    assert_eq!(bcb.as_bytecode().bytes_len(), 0);
}

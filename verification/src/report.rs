use vstd::prelude::*;

verus! {

/// Size of one PID on the report pipe: the four bytes of a `pid_t`.
pub const PID_WIRE_SIZE: usize = 4;

/// The four little-endian bytes the spawner writes on the report pipe
/// for a (positive) target PID.
pub open spec fn spec_pid_bytes(pid: i32) -> Seq<u8> {
    let u = pid as u32;
    seq![
        (u & 0xff) as u8,
        ((u >> 8) & 0xff) as u8,
        ((u >> 16) & 0xff) as u8,
        ((u >> 24) & 0xff) as u8,
    ]
}

/// The 32-bit word held by the first four bytes of `b`, little endian.
pub open spec fn spec_report_word(b: Seq<u8>) -> u32 {
    (b[0] as u32) | ((b[1] as u32) << 8) | ((b[2] as u32) << 16) | ((b[3] as u32) << 24)
}

/// A report read from the pipe that carries no usable target PID.
#[derive(Clone, Copy, PartialEq, Eq, Structural, Debug)]
pub enum ReportError {
    /// The read returned other than exactly `PID_WIRE_SIZE` bytes.
    WrongLength { got: usize },
    /// The four bytes name no positive PID.
    BadPid { value: u32 },
}

/// What one read on the report pipe means: exactly four bytes naming a
/// positive PID yield that PID; any other length is the protocol
/// violation of a short (or long) read; four bytes naming zero or a
/// negative value carry no PID a process could have.
pub open spec fn spec_decode_report(b: Seq<u8>) -> Result<i32, ReportError> {
    if b.len() != PID_WIRE_SIZE {
        Err((ReportError::WrongLength { got: b.len() as usize }))
    } else {
        let w = spec_report_word(b);
        if 0 < w && w < 0x8000_0000u32 {
            Ok(w as i32)
        } else {
            Err((ReportError::BadPid { value: w }))
        }
    }
}

/// Encodes a target PID for the report pipe.
pub fn encode_report_pid(pid: i32) -> (r: Vec<u8>)
    requires
        pid > 0,
    ensures
        r@ == spec_pid_bytes(pid),
        r@.len() == PID_WIRE_SIZE,
{
    let u = pid as u32;
    let mut r: Vec<u8> = Vec::new();
    proof {
        assert(u & 0xff < 256 && (u >> 8) & 0xff < 256 && (u >> 16) & 0xff < 256 && (u >> 24)
            & 0xff < 256) by (bit_vector);
    }
    r.push((u & 0xff) as u8);
    r.push(((u >> 8) & 0xff) as u8);
    r.push(((u >> 16) & 0xff) as u8);
    r.push(((u >> 24) & 0xff) as u8);
    proof {
        assert(r@ =~= spec_pid_bytes(pid));
    }
    r
}

/// Decodes what one read on the report pipe returned. Exactly four bytes
/// naming a positive PID yield that PID; a read of any other length is
/// the protocol violation of a short (or long) read; four bytes naming
/// zero or a negative value carry no PID a process could have.
pub fn decode_report_pid(b: &Vec<u8>) -> (r: Result<i32, ReportError>)
    ensures
        r == spec_decode_report(b@),
        r matches Ok(pid) ==> pid > 0,
{
    if b.len() != PID_WIRE_SIZE {
        return Err(ReportError::WrongLength { got: b.len() });
    }
    let w: u32 = (b[0] as u32) | ((b[1] as u32) << 8) | ((b[2] as u32) << 16) | ((b[3] as u32)
        << 24);
    if w == 0 || w >= 0x8000_0000u32 {
        Err(ReportError::BadPid { value: w })
    } else {
        proof {
            let w2 = w;
            assert(w2 > 0 && w2 < 0x8000_0000u32 ==> w2 as i32 > 0) by (bit_vector);
        }
        Ok(w as i32)
    }
}

/// Law (atomic PID return): the four bytes written for a target PID read
/// back as exactly that PID — the report pipe's packet mode rules out a
/// partial read, and this rules out any reassembly mistake.
pub proof fn lemma_report_round_trip(pid: i32)
    requires
        pid > 0,
    ensures
        spec_pid_bytes(pid).len() == PID_WIRE_SIZE,
        spec_report_word(spec_pid_bytes(pid)) == pid as u32,
        0 < spec_report_word(spec_pid_bytes(pid)),
        spec_report_word(spec_pid_bytes(pid)) < 0x8000_0000u32,
        spec_report_word(spec_pid_bytes(pid)) as i32 == pid,
        spec_decode_report(spec_pid_bytes(pid)) == Ok::<i32, ReportError>(pid),
{
    let u = pid as u32;
    let b = spec_pid_bytes(pid);
    assert(b[0] == (u & 0xff) as u8 && b[1] == ((u >> 8) & 0xff) as u8 && b[2] == ((u >> 16)
        & 0xff) as u8 && b[3] == ((u >> 24) & 0xff) as u8);
    assert((((u & 0xff) as u8) as u32) | ((((u >> 8) & 0xff) as u8) as u32) << 8 | ((((u >> 16)
        & 0xff) as u8) as u32) << 16 | ((((u >> 24) & 0xff) as u8) as u32) << 24 == u)
        by (bit_vector);
    assert(pid > 0 ==> pid as u32 > 0) by (bit_vector);
    assert(pid > 0 ==> (pid as u32) < 0x8000_0000u32) by (bit_vector);
    assert(pid > 0 ==> (pid as u32) as i32 == pid) by (bit_vector);
}

} // verus!

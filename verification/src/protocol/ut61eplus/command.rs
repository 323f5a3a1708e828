use vstd::prelude::*;

verus! {

/// Remote commands (button presses) that can be sent to the meter.
///
/// Encoding: `[0xAB, 0xCD, 0x03, cmd, (sum >> 8), (sum & 0xFF)]`, where `sum`
/// is the sum of the four bytes before it, which is `cmd + 379`.
#[derive(Debug, Clone, Copy, PartialEq, Eq, Structural)]
pub enum Command {
    /// Request a measurement reading (0x5E).
    GetMeasurement,
    /// Get device name (0x5F).
    GetName,
    /// Start the readings stream (0x5D).
    StartStream,
    /// Toggle MIN/MAX mode (0x41).
    MinMax,
    /// Exit MIN/MAX mode (0x42).
    ExitMinMax,
    /// RANGE button (0x46).
    Range,
    /// Set auto-range (0x47).
    Auto,
    /// Toggle REL (relative) mode (0x48).
    Rel,
    /// Hz/USB SELECT button (0x49).
    Select2,
    /// Toggle HOLD mode (0x4A).
    Hold,
    /// Toggle backlight (0x4B).
    Light,
    /// Orange SELECT button (0x4C).
    Select,
    /// Toggle Peak MIN/MAX mode (0x4D).
    PeakMinMax,
    /// Exit Peak mode (0x4E).
    ExitPeak,
}

/// The command byte each command is sent as.
pub open spec fn command_byte(c: Command) -> u8 {
    match c {
        Command::GetMeasurement => 0x5E,
        Command::GetName => 0x5F,
        Command::StartStream => 0x5D,
        Command::MinMax => 0x41,
        Command::ExitMinMax => 0x42,
        Command::Range => 0x46,
        Command::Auto => 0x47,
        Command::Rel => 0x48,
        Command::Select2 => 0x49,
        Command::Hold => 0x4A,
        Command::Light => 0x4B,
        Command::Select => 0x4C,
        Command::PeakMinMax => 0x4D,
        Command::ExitPeak => 0x4E,
    }
}

/// The 16-bit sum the family's frames end with: every byte before it, header
/// and length included.
pub open spec fn be16_sum(bytes: Seq<u8>) -> int
    decreases bytes.len(),
{
    if bytes.len() == 0 {
        0
    } else {
        be16_sum(bytes.drop_last()) + bytes.last()
    }
}

/// A frame carrying command byte `cmd` and no payload: header `AB CD`, the
/// length of what follows it, the command, and the big-endian sum.
pub open spec fn command_frame(cmd: u8) -> Seq<u8> {
    let head = seq![0xABu8, 0xCDu8, 0x03u8, cmd];
    let sum = be16_sum(head);
    head + seq![(sum / 256) as u8, (sum % 256) as u8]
}

/// Build the frame for command byte `cmd` with no payload.
pub fn build_abcd_be16(cmd: u8) -> (r: [u8; 6])
    ensures
        r@ == command_frame(cmd),
{
    let sum: u16 = 0xAB + 0xCD + 0x03 + cmd as u16;
    proof {
        let head = seq![0xABu8, 0xCDu8, 0x03u8, cmd];
        reveal_with_fuel(be16_sum, 5);
        assert(head.drop_last().drop_last().drop_last().drop_last() =~= Seq::<u8>::empty());
        assert(head.drop_last().drop_last().drop_last() =~= seq![0xABu8]);
        assert(head.drop_last().drop_last() =~= seq![0xABu8, 0xCDu8]);
        assert(head.drop_last() =~= seq![0xABu8, 0xCDu8, 0x03u8]);
        assert(be16_sum(head) == sum);
    }
    let r = [0xAB, 0xCD, 0x03, cmd, (sum / 256) as u8, (sum % 256) as u8];
    assert(r@ =~= command_frame(cmd));
    r
}

/// Every command frame ends with the big-endian sum of the bytes before it,
/// and no two commands are sent as the same frame.
pub proof fn command_frames_are_checksummed_and_distinct(a: Command, b: Command)
    ensures
        command_frame(command_byte(a)).len() == 6,
        command_frame(command_byte(a))[4] * 256 + command_frame(command_byte(a))[5] == be16_sum(
            command_frame(command_byte(a)).take(4),
        ),
        a != b ==> command_frame(command_byte(a)) != command_frame(command_byte(b)),
{
    let f = command_frame(command_byte(a));
    let head = seq![0xABu8, 0xCDu8, 0x03u8, command_byte(a)];
    reveal_with_fuel(be16_sum, 5);
    assert(head.drop_last().drop_last().drop_last().drop_last() =~= Seq::<u8>::empty());
    assert(head.drop_last().drop_last().drop_last() =~= seq![0xABu8]);
    assert(head.drop_last().drop_last() =~= seq![0xABu8, 0xCDu8]);
    assert(head.drop_last() =~= seq![0xABu8, 0xCDu8, 0x03u8]);
    assert(f.take(4) =~= head);
    let sum = be16_sum(head);
    assert(sum == 379 + command_byte(a));
    assert(f[4] == (sum / 256) as u8);
    assert(f[5] == (sum % 256) as u8);
    if a != b {
        assert(command_frame(command_byte(b))[3] == command_byte(b));
        assert(f[3] == command_byte(a));
    }
}

/// Each command goes out as the frame the meter documents for its button
/// or request: RANGE as `AB CD 03 46 01 C1`, AUTO as `AB CD 03 47 01 C2`,
/// and so on for every command, checksum included.
pub proof fn each_command_is_sent_as_its_documented_frame(c: Command)
    ensures
        command_frame(command_byte(c)) == match c {
            Command::GetMeasurement => seq![0xABu8, 0xCDu8, 0x03u8, 0x5Eu8, 0x01u8, 0xD9u8],
            Command::GetName => seq![0xABu8, 0xCDu8, 0x03u8, 0x5Fu8, 0x01u8, 0xDAu8],
            Command::StartStream => seq![0xABu8, 0xCDu8, 0x03u8, 0x5Du8, 0x01u8, 0xD8u8],
            Command::MinMax => seq![0xABu8, 0xCDu8, 0x03u8, 0x41u8, 0x01u8, 0xBCu8],
            Command::ExitMinMax => seq![0xABu8, 0xCDu8, 0x03u8, 0x42u8, 0x01u8, 0xBDu8],
            Command::Range => seq![0xABu8, 0xCDu8, 0x03u8, 0x46u8, 0x01u8, 0xC1u8],
            Command::Auto => seq![0xABu8, 0xCDu8, 0x03u8, 0x47u8, 0x01u8, 0xC2u8],
            Command::Rel => seq![0xABu8, 0xCDu8, 0x03u8, 0x48u8, 0x01u8, 0xC3u8],
            Command::Select2 => seq![0xABu8, 0xCDu8, 0x03u8, 0x49u8, 0x01u8, 0xC4u8],
            Command::Hold => seq![0xABu8, 0xCDu8, 0x03u8, 0x4Au8, 0x01u8, 0xC5u8],
            Command::Light => seq![0xABu8, 0xCDu8, 0x03u8, 0x4Bu8, 0x01u8, 0xC6u8],
            Command::Select => seq![0xABu8, 0xCDu8, 0x03u8, 0x4Cu8, 0x01u8, 0xC7u8],
            Command::PeakMinMax => seq![0xABu8, 0xCDu8, 0x03u8, 0x4Du8, 0x01u8, 0xC8u8],
            Command::ExitPeak => seq![0xABu8, 0xCDu8, 0x03u8, 0x4Eu8, 0x01u8, 0xC9u8],
        },
{
    let head = seq![0xABu8, 0xCDu8, 0x03u8, command_byte(c)];
    reveal_with_fuel(be16_sum, 5);
    assert(head.drop_last().drop_last().drop_last().drop_last() =~= Seq::<u8>::empty());
    assert(head.drop_last().drop_last().drop_last() =~= seq![0xABu8]);
    assert(head.drop_last().drop_last() =~= seq![0xABu8, 0xCDu8]);
    assert(head.drop_last() =~= seq![0xABu8, 0xCDu8, 0x03u8]);
    assert(be16_sum(head) == 379 + command_byte(c));
    assert(command_frame(command_byte(c)) =~= match c {
        Command::GetMeasurement => seq![0xABu8, 0xCDu8, 0x03u8, 0x5Eu8, 0x01u8, 0xD9u8],
        Command::GetName => seq![0xABu8, 0xCDu8, 0x03u8, 0x5Fu8, 0x01u8, 0xDAu8],
        Command::StartStream => seq![0xABu8, 0xCDu8, 0x03u8, 0x5Du8, 0x01u8, 0xD8u8],
        Command::MinMax => seq![0xABu8, 0xCDu8, 0x03u8, 0x41u8, 0x01u8, 0xBCu8],
        Command::ExitMinMax => seq![0xABu8, 0xCDu8, 0x03u8, 0x42u8, 0x01u8, 0xBDu8],
        Command::Range => seq![0xABu8, 0xCDu8, 0x03u8, 0x46u8, 0x01u8, 0xC1u8],
        Command::Auto => seq![0xABu8, 0xCDu8, 0x03u8, 0x47u8, 0x01u8, 0xC2u8],
        Command::Rel => seq![0xABu8, 0xCDu8, 0x03u8, 0x48u8, 0x01u8, 0xC3u8],
        Command::Select2 => seq![0xABu8, 0xCDu8, 0x03u8, 0x49u8, 0x01u8, 0xC4u8],
        Command::Hold => seq![0xABu8, 0xCDu8, 0x03u8, 0x4Au8, 0x01u8, 0xC5u8],
        Command::Light => seq![0xABu8, 0xCDu8, 0x03u8, 0x4Bu8, 0x01u8, 0xC6u8],
        Command::Select => seq![0xABu8, 0xCDu8, 0x03u8, 0x4Cu8, 0x01u8, 0xC7u8],
        Command::PeakMinMax => seq![0xABu8, 0xCDu8, 0x03u8, 0x4Du8, 0x01u8, 0xC8u8],
        Command::ExitPeak => seq![0xABu8, 0xCDu8, 0x03u8, 0x4Eu8, 0x01u8, 0xC9u8],
    });
}

impl Command {
    /// The command byte this command is sent as.
    pub fn byte(self) -> (b: u8)
        ensures
            b == command_byte(self),
    {
        match self {
            Command::GetMeasurement => 0x5E,
            Command::GetName => 0x5F,
            Command::StartStream => 0x5D,
            Command::MinMax => 0x41,
            Command::ExitMinMax => 0x42,
            Command::Range => 0x46,
            Command::Auto => 0x47,
            Command::Rel => 0x48,
            Command::Select2 => 0x49,
            Command::Hold => 0x4A,
            Command::Light => 0x4B,
            Command::Select => 0x4C,
            Command::PeakMinMax => 0x4D,
            Command::ExitPeak => 0x4E,
        }
    }

    /// Encode this command into the 6-byte wire format.
    pub fn encode(self) -> (r: [u8; 6])
        ensures
            r@ == command_frame(command_byte(self)),
    {
        build_abcd_be16(self.byte())
    }
}

} // verus!

use vstd::prelude::*;

verus! {

/// An error number reported by the operating system.
#[derive(Debug, Clone, Copy, PartialEq, Eq, Structural)]
pub struct Errno(pub i32);

pub type SysCallResult<T> = Result<T, Errno>;

pub const EPERM: i32 = 1;
pub const ENOENT: i32 = 2;
pub const ESRCH: i32 = 3;
pub const EINTR: i32 = 4;
pub const EIO: i32 = 5;
pub const ENXIO: i32 = 6;
pub const E2BIG: i32 = 7;
pub const ENOEXEC: i32 = 8;
pub const EBADF: i32 = 9;
pub const ECHILD: i32 = 10;
pub const EAGAIN: i32 = 11;
pub const ENOMEM: i32 = 12;
pub const EACCESS: i32 = 13;
pub const EFAULT: i32 = 14;
pub const ENOTBLK: i32 = 15;
pub const EBUSY: i32 = 16;
pub const EEXIST: i32 = 17;
pub const EXDEV: i32 = 18;
pub const ENODEV: i32 = 19;
pub const ENOTDIR: i32 = 20;
pub const EISDIR: i32 = 21;
pub const EINVAL: i32 = 22;
pub const ENFILE: i32 = 23;
pub const EMFILE: i32 = 24;
pub const ENOTTY: i32 = 25;
pub const ETXTBSY: i32 = 26;
pub const EFBIG: i32 = 27;
pub const ENOSPC: i32 = 28;
pub const ESPIPE: i32 = 29;
pub const EROFS: i32 = 30;
pub const EMLINK: i32 = 31;
pub const EPIPE: i32 = 32;
pub const EDOM: i32 = 33;
pub const ERANGE: i32 = 34;
pub const EDEADLK: i32 = 35;
pub const ENAMETOOLONG: i32 = 36;
pub const ENOLCK: i32 = 37;
pub const ENOSYS: i32 = 38;
pub const ENOTEMPTY: i32 = 39;
pub const ELOOP: i32 = 40;
pub const EWOULDBLOCK: i32 = EAGAIN;
pub const ENOMSG: i32 = 42;
pub const EIDRM: i32 = 43;
pub const ECHRNG: i32 = 44;
pub const EL2NSYNC: i32 = 45;
pub const EL3HLT: i32 = 46;
pub const EL3RST: i32 = 47;
pub const ELNRNG: i32 = 48;
pub const EUNATCH: i32 = 49;
pub const ENOCSI: i32 = 50;
pub const EL2HLT: i32 = 51;
pub const EBADE: i32 = 52;
pub const EBADR: i32 = 53;
pub const EXFULL: i32 = 54;
pub const ENOANO: i32 = 55;
pub const EBADRQC: i32 = 56;
pub const EBADSLT: i32 = 57;
pub const EDEADLOCK: i32 = EDEADLK;
pub const EBFONT: i32 = 59;
pub const ENOSTR: i32 = 60;
pub const ENODATA: i32 = 61;
pub const ETIME: i32 = 62;
pub const ENOSR: i32 = 63;
pub const ENONET: i32 = 64;
pub const ENOPKG: i32 = 65;
pub const EREMOTE: i32 = 66;
pub const ENOLINK: i32 = 67;
pub const EADV: i32 = 68;
pub const ESRMNT: i32 = 69;
pub const ECOMM: i32 = 70;
pub const EPROTO: i32 = 71;
pub const EMULTIHOP: i32 = 72;
pub const EDOTDOT: i32 = 73;
pub const EADDRINUSE: i32 = 98;
pub const EINPROGRESS: i32 = 115;

/// What the error number `code` means, in words.
pub open spec fn describe(code: i32) -> Seq<char> {
    match code {
        1 => "Operation not permitted"@,
        2 => "No such file or directory"@,
        3 => "No such process"@,
        4 => "Interrupted system call"@,
        5 => "I/O error"@,
        6 => "No such device or address"@,
        7 => "Argument list too long"@,
        8 => "Exec format error"@,
        9 => "Bad file number"@,
        10 => "No child processes"@,
        11 => "Try again"@,
        12 => "Out of memory"@,
        13 => "Permission denied"@,
        14 => "Bad address"@,
        15 => "Block device required"@,
        16 => "Device or resource busy"@,
        17 => "File exists"@,
        18 => "Cross-device link"@,
        19 => "No such device"@,
        20 => "Not a directory"@,
        21 => "Is a directory"@,
        22 => "Invalid argument"@,
        23 => "File table overflow"@,
        24 => "Too many open files"@,
        25 => "Not a typewriter"@,
        26 => "Text file busy"@,
        27 => "File too large"@,
        28 => "No space left on device"@,
        29 => "Illegal seek"@,
        30 => "Read-only file system"@,
        31 => "Too many links"@,
        32 => "Broken pipe"@,
        33 => "Math argument out of domain of func"@,
        34 => "Math result not representable"@,
        35 => "Resource deadlock would occur"@,
        36 => "File name too long"@,
        37 => "No record locks available"@,
        38 => "Function not implemented"@,
        39 => "Directory not empty"@,
        40 => "Too many symbolic links encountered"@,
        42 => "No message of desired type"@,
        43 => "Identifier removed"@,
        44 => "Channel number out of range"@,
        45 => "Level 2 not synchronized"@,
        46 => "Level 3 halted"@,
        47 => "Level 3 reset"@,
        48 => "Link number out of range"@,
        49 => "Protocol driver not attached"@,
        50 => "No CSI structure available"@,
        51 => "Level 2 halted"@,
        52 => "Invalid exchange"@,
        53 => "Invalid request descriptor"@,
        54 => "Exchange full"@,
        55 => "No anode"@,
        56 => "Invalid request code"@,
        57 => "Invalid slot"@,
        59 => "Bad font file format"@,
        60 => "Device not a stream"@,
        61 => "No data available"@,
        62 => "Timer expired"@,
        63 => "Out of streams resources"@,
        64 => "Machine is not on the network"@,
        65 => "Package not installed"@,
        66 => "Object is remote"@,
        67 => "Link has been severed"@,
        68 => "Advertise error"@,
        69 => "Srmount error"@,
        70 => "Communication error on send"@,
        71 => "Protocol error"@,
        72 => "Multihop attempted"@,
        73 => "RFS specific error"@,
        115 => "Operation now in progress"@,
        98 => "Address already in use"@,
        _ => "Unknown errno code"@,
    }
}

/// The decimal digit `d`.
pub open spec fn digit_text(d: nat) -> Seq<char> {
    if d == 0 {
        "0"@
    } else if d == 1 {
        "1"@
    } else if d == 2 {
        "2"@
    } else if d == 3 {
        "3"@
    } else if d == 4 {
        "4"@
    } else if d == 5 {
        "5"@
    } else if d == 6 {
        "6"@
    } else if d == 7 {
        "7"@
    } else if d == 8 {
        "8"@
    } else {
        "9"@
    }
}

/// `n` written in decimal, without leading zeros.
pub open spec fn decimal(n: nat) -> Seq<char>
    decreases n,
{
    if n < 10 {
        digit_text(n)
    } else {
        decimal(n / 10) + digit_text(n % 10)
    }
}

/// `v` written in decimal, with a leading minus sign when negative.
pub open spec fn signed_decimal(v: int) -> Seq<char> {
    if v < 0 {
        "-"@ + decimal((-v) as nat)
    } else {
        decimal(v as nat)
    }
}

fn digit_str(d: u32) -> (r: &'static str)
    requires
        d < 10,
    ensures
        r@ == digit_text(d as nat),
{
    if d == 0 {
        "0"
    } else if d == 1 {
        "1"
    } else if d == 2 {
        "2"
    } else if d == 3 {
        "3"
    } else if d == 4 {
        "4"
    } else if d == 5 {
        "5"
    } else if d == 6 {
        "6"
    } else if d == 7 {
        "7"
    } else if d == 8 {
        "8"
    } else {
        "9"
    }
}

fn append_decimal(s: &mut String, n: u32)
    ensures
        final(s)@ == old(s)@ + decimal(n as nat),
    decreases n,
{
    if n >= 10 {
        append_decimal(s, n / 10);
    }
    s.append(digit_str(n % 10));
    assert(final(s)@ =~= old(s)@ + decimal(n as nat));
}

impl Errno {
    /// The error number.
    pub fn value(&self) -> (r: i32)
        ensures
            r == self.0,
    {
        self.0
    }

    /// What the error number means, in words.
    pub fn description(&self) -> (r: &'static str)
        ensures
            r@ == describe(self.0),
    {
        match self.0 {
            EPERM => "Operation not permitted",
            ENOENT => "No such file or directory",
            ESRCH => "No such process",
            EINTR => "Interrupted system call",
            EIO => "I/O error",
            ENXIO => "No such device or address",
            E2BIG => "Argument list too long",
            ENOEXEC => "Exec format error",
            EBADF => "Bad file number",
            ECHILD => "No child processes",
            EAGAIN => "Try again",
            ENOMEM => "Out of memory",
            EACCESS => "Permission denied",
            EFAULT => "Bad address",
            ENOTBLK => "Block device required",
            EBUSY => "Device or resource busy",
            EEXIST => "File exists",
            EXDEV => "Cross-device link",
            ENODEV => "No such device",
            ENOTDIR => "Not a directory",
            EISDIR => "Is a directory",
            EINVAL => "Invalid argument",
            ENFILE => "File table overflow",
            EMFILE => "Too many open files",
            ENOTTY => "Not a typewriter",
            ETXTBSY => "Text file busy",
            EFBIG => "File too large",
            ENOSPC => "No space left on device",
            ESPIPE => "Illegal seek",
            EROFS => "Read-only file system",
            EMLINK => "Too many links",
            EPIPE => "Broken pipe",
            EDOM => "Math argument out of domain of func",
            ERANGE => "Math result not representable",
            EDEADLK => "Resource deadlock would occur",
            ENAMETOOLONG => "File name too long",
            ENOLCK => "No record locks available",
            ENOSYS => "Function not implemented",
            ENOTEMPTY => "Directory not empty",
            ELOOP => "Too many symbolic links encountered",
            ENOMSG => "No message of desired type",
            EIDRM => "Identifier removed",
            ECHRNG => "Channel number out of range",
            EL2NSYNC => "Level 2 not synchronized",
            EL3HLT => "Level 3 halted",
            EL3RST => "Level 3 reset",
            ELNRNG => "Link number out of range",
            EUNATCH => "Protocol driver not attached",
            ENOCSI => "No CSI structure available",
            EL2HLT => "Level 2 halted",
            EBADE => "Invalid exchange",
            EBADR => "Invalid request descriptor",
            EXFULL => "Exchange full",
            ENOANO => "No anode",
            EBADRQC => "Invalid request code",
            EBADSLT => "Invalid slot",
            EBFONT => "Bad font file format",
            ENOSTR => "Device not a stream",
            ENODATA => "No data available",
            ETIME => "Timer expired",
            ENOSR => "Out of streams resources",
            ENONET => "Machine is not on the network",
            ENOPKG => "Package not installed",
            EREMOTE => "Object is remote",
            ENOLINK => "Link has been severed",
            EADV => "Advertise error",
            ESRMNT => "Srmount error",
            ECOMM => "Communication error on send",
            EPROTO => "Protocol error",
            EMULTIHOP => "Multihop attempted",
            EDOTDOT => "RFS specific error",
            EINPROGRESS => "Operation now in progress",
            EADDRINUSE => "Address already in use",
            _ => "Unknown errno code",
        }
    }

    /// The error number and its meaning, as `"<number>: <meaning>"`.
    pub fn to_string(&self) -> (r: String)
        ensures
            r@ == signed_decimal(self.0 as int) + ": "@ + describe(self.0),
    {
        let mut s = String::new();
        if self.0 < 0 {
            s.append("-");
            let magnitude: u32 = (-(self.0 as i64)) as u32;
            append_decimal(&mut s, magnitude);
        } else {
            append_decimal(&mut s, self.0 as u32);
        }
        s.append(": ");
        s.append(self.description());
        s
    }
}

} // verus!

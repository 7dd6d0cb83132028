//! Terminal attribute snapshot and decoding.
//!
//! A snapshot reads the terminal's attribute structure once and
//! decomposes each of the four flag groups — input, output, control
//! and local modes — into the names currently set and the names
//! currently clear, and reads the control-character array into a
//! name/value list.  Read-only and diagnostic: nothing on the data
//! plane depends on it.  The masks and array indices mirror the
//! Linux values the termios crate defines.

use vstd::prelude::*;

verus! {

/// The raw attribute words of one terminal: the four flag groups and
/// the control-character array.
pub struct RawAttributes {
    /// Input-processing modes.
    pub iflag: u32,
    /// Output-processing modes.
    pub oflag: u32,
    /// Control modes.
    pub cflag: u32,
    /// Local modes.
    pub lflag: u32,
    /// The control-character array, one byte per role.
    pub cc: Vec<u8>,
}

/// The length of the control-character array.
pub const CONTROL_CHAR_COUNT: usize = 32;

/// Relies on termios::Termios::from_fd (tcgetattr): the attribute
/// structure currently set for the descriptor, its control-character
/// array thirty-two bytes long; on failure the OS error number.
#[verifier::external_body]
fn sys_terminal_attributes(fd: i32) -> (r: Result<RawAttributes, i32>)
    ensures
        r matches Ok(a) ==> a.cc@.len() == CONTROL_CHAR_COUNT,
{
    match termios::Termios::from_fd(fd) {
        Ok(t) => Ok(
            RawAttributes {
                iflag: t.c_iflag,
                oflag: t.c_oflag,
                cflag: t.c_cflag,
                lflag: t.c_lflag,
                cc: t.c_cc.to_vec(),
            },
        ),
        Err(e) => Err(e.raw_os_error().unwrap_or(-1)),
    }
}

/// The input-processing flags, by mask and name.
pub open spec fn input_flag_table() -> Seq<(u32, &'static str)> {
    seq![
        (0o000001u32, "IGNBRK"),
        (0o000002u32, "BRKINT"),
        (0o000004u32, "IGNPAR"),
        (0o000010u32, "PARMRK"),
        (0o000020u32, "INPCK"),
        (0o000040u32, "ISTRIP"),
        (0o000100u32, "INLCR"),
        (0o000400u32, "ICRNL"),
        (0o001000u32, "IUCLC"),
        (0o002000u32, "IXON"),
        (0o004000u32, "IXANY"),
        (0o010000u32, "IXOFF"),
        (0o020000u32, "IMAXBEL"),
        (0o040000u32, "IUTF8"),
    ]
}

/// The output-processing flags, by mask and name.
pub open spec fn output_flag_table() -> Seq<(u32, &'static str)> {
    seq![
        (0o000001u32, "OPOST"),
        (0o000002u32, "OLCUC"),
        (0o000004u32, "ONLCR"),
        (0o000010u32, "OCRNL"),
        (0o000020u32, "ONOCR"),
        (0o000040u32, "ONLRET"),
        (0o000100u32, "OFILL"),
        (0o000200u32, "OFDEL"),
        (0o000400u32, "NLDLY"),
        (0o003000u32, "CRDLY"),
        (0o014000u32, "TABDLY"),
        (0o020000u32, "BSDLY"),
        (0o040000u32, "VTDLY"),
        (0o100000u32, "FFDLY"),
    ]
}

/// The control-mode flags, by mask and name.
pub open spec fn control_flag_table() -> Seq<(u32, &'static str)> {
    seq![
        (0o010017u32, "CBAUD"),
        (0o010000u32, "CBAUDEX"),
        (0o000060u32, "CSIZE"),
        (0o000100u32, "CSTOPB"),
        (0o000200u32, "CREAD"),
        (0o000400u32, "PARENB"),
        (0o001000u32, "PARODD"),
        (0o002000u32, "HUPCL"),
        (0o004000u32, "CLOCAL"),
        (0o02003600000u32, "CIBAUD"),
        (0o10000000000u32, "CMSPAR"),
        (0o20000000000u32, "CRTSCTS"),
    ]
}

/// The local-mode flags, by mask and name.
pub open spec fn local_flag_table() -> Seq<(u32, &'static str)> {
    seq![
        (0o000001u32, "ISIG"),
        (0o000002u32, "ICANON"),
        (0o000004u32, "XCASE"),
        (0o000010u32, "ECHO"),
        (0o000020u32, "ECHOE"),
        (0o000040u32, "ECHOK"),
        (0o000100u32, "ECHONL"),
        (0o001000u32, "ECHOCTL"),
        (0o002000u32, "ECHOPRT"),
        (0o004000u32, "ECHOKE"),
        (0o010000u32, "FLUSHO"),
        (0o000200u32, "NOFLSH"),
        (0o000400u32, "TOSTOP"),
        (0o040000u32, "PENDIN"),
        (0o100000u32, "IEXTEN"),
    ]
}

/// The control-character roles, by array index and name.
pub open spec fn control_char_table() -> Seq<(usize, &'static str)> {
    seq![
        (13usize, "VDISCARD"),
        (4usize, "VEOF"),
        (11usize, "VEOL"),
        (16usize, "VEOL2"),
        (2usize, "VERASE"),
        (0usize, "VINTR"),
        (3usize, "VKILL"),
        (15usize, "VLNEXT"),
        (6usize, "VMIN"),
        (1usize, "VQUIT"),
        (12usize, "VREPRINT"),
        (8usize, "VSTART"),
        (9usize, "VSTOP"),
        (10usize, "VSUSP"),
        (7usize, "VSWTCH"),
        (5usize, "VTIME"),
        (14usize, "VWERASE"),
    ]
}

/// The names of the table entries whose mask overlaps `target`, in
/// table order.
pub open spec fn spec_set_names(target: u32, table: Seq<(u32, &'static str)>) -> Seq<
    &'static str,
>
    decreases table.len(),
{
    if table.len() == 0 {
        Seq::empty()
    } else {
        spec_set_names(target, table.drop_last()) + (if target & table.last().0 != 0 {
            seq![table.last().1]
        } else {
            Seq::empty()
        })
    }
}

/// The names of the table entries whose mask does not overlap
/// `target`, in table order.
pub open spec fn spec_clear_names(target: u32, table: Seq<(u32, &'static str)>) -> Seq<
    &'static str,
>
    decreases table.len(),
{
    if table.len() == 0 {
        Seq::empty()
    } else {
        spec_clear_names(target, table.drop_last()) + (if target & table.last().0 == 0 {
            seq![table.last().1]
        } else {
            Seq::empty()
        })
    }
}

/// Partition law: against any word, every table entry lands in
/// exactly one of the two name lists, so their lengths sum to the
/// table's.
pub proof fn lemma_split_partitions(target: u32, table: Seq<(u32, &'static str)>)
    ensures
        spec_set_names(target, table).len() + spec_clear_names(target, table).len()
            == table.len(),
    decreases table.len(),
{
    if table.len() > 0 {
        lemma_split_partitions(target, table.drop_last());
    }
}

/// One flag group, partitioned into the names set and the names
/// clear.
pub struct FlagSplit {
    /// Names whose mask overlaps the group's word.
    pub set: Vec<&'static str>,
    /// Names whose mask does not.
    pub clear: Vec<&'static str>,
}

/// Partition a flag table against one attribute word: each name goes
/// to `set` exactly when its mask overlaps the word, to `clear`
/// otherwise, both in table order.
pub fn split_flags(target: u32, table: &Vec<(u32, &'static str)>) -> (r: FlagSplit)
    ensures
        r.set@ == spec_set_names(target, table@),
        r.clear@ == spec_clear_names(target, table@),
{
    let mut set: Vec<&'static str> = Vec::new();
    let mut clear: Vec<&'static str> = Vec::new();
    let len: usize = table.len();
    let mut i: usize = 0;
    while i < len
        invariant
            i <= len == table@.len(),
            set@ == spec_set_names(target, table@.subrange(0, i as int)),
            clear@ == spec_clear_names(target, table@.subrange(0, i as int)),
        decreases len - i,
    {
        let entry = table[i];
        proof {
            let pre = table@.subrange(0, i + 1);
            assert(pre.drop_last() =~= table@.subrange(0, i as int));
            assert(pre.last() == table@[i as int]);
        }
        if target & entry.0 != 0 {
            set.push(entry.1);
            proof {
                assert(set@ =~= spec_set_names(target, table@.subrange(0, i + 1)));
                assert(clear@ =~= spec_clear_names(target, table@.subrange(0, i + 1)));
            }
        } else {
            clear.push(entry.1);
            proof {
                assert(set@ =~= spec_set_names(target, table@.subrange(0, i + 1)));
                assert(clear@ =~= spec_clear_names(target, table@.subrange(0, i + 1)));
            }
        }
        i = i + 1;
    }
    proof {
        assert(table@.subrange(0, len as int) =~= table@);
    }
    FlagSplit { set, clear }
}

/// The control-character list a table reads out of the array: one
/// name/value pair per role, in table order.
pub open spec fn spec_special_chars(cc: Seq<u8>, table: Seq<(usize, &'static str)>) -> Seq<
    (&'static str, u8),
>
    recommends
        forall|j: int| 0 <= j < table.len() ==> (table[j].0 as int) < cc.len(),
    decreases table.len(),
{
    if table.len() == 0 {
        Seq::empty()
    } else {
        spec_special_chars(cc, table.drop_last()).push(
            (table.last().1, cc[table.last().0 as int]),
        )
    }
}

/// Read the control-character array into a name/value list, one entry
/// per role of the table, in table order.
pub fn read_special_chars(cc: &Vec<u8>, table: &Vec<(usize, &'static str)>) -> (r: Vec<
    (&'static str, u8),
>)
    requires
        forall|j: int| 0 <= j < table@.len() ==> (table@[j].0 as int) < cc@.len(),
    ensures
        r@ == spec_special_chars(cc@, table@),
{
    let mut out: Vec<(&'static str, u8)> = Vec::new();
    let len: usize = table.len();
    let mut i: usize = 0;
    while i < len
        invariant
            i <= len == table@.len(),
            forall|j: int| 0 <= j < table@.len() ==> (table@[j].0 as int) < cc@.len(),
            out@ == spec_special_chars(cc@, table@.subrange(0, i as int)),
        decreases len - i,
    {
        let entry = table[i];
        proof {
            let pre = table@.subrange(0, i + 1);
            assert(pre.drop_last() =~= table@.subrange(0, i as int));
            assert(pre.last() == table@[i as int]);
        }
        out.push((entry.1, cc[entry.0]));
        i = i + 1;
    }
    proof {
        assert(table@.subrange(0, len as int) =~= table@);
    }
    out
}

/// One attribute snapshot: the raw words it was taken from, the four
/// flag groups decomposed into set and clear names, and the
/// control-character roles with their configured byte values.
pub struct AttributeSnapshot {
    /// The raw words the snapshot decomposes.
    pub raw: RawAttributes,
    /// The input-processing group.
    pub input: FlagSplit,
    /// The output-processing group.
    pub output: FlagSplit,
    /// The control-mode group.
    pub control: FlagSplit,
    /// The local-mode group.
    pub local: FlagSplit,
    /// Control-character roles and their byte values.
    pub special: Vec<(&'static str, u8)>,
}

/// A snapshot decomposes its own raw words: every flag group is the
/// exact partition of its table against its word, and the special
/// characters are read at the table's indices.
pub open spec fn snapshot_wf(s: &AttributeSnapshot) -> bool {
    &&& s.input.set@ == spec_set_names(s.raw.iflag, input_flag_table())
    &&& s.input.clear@ == spec_clear_names(s.raw.iflag, input_flag_table())
    &&& s.output.set@ == spec_set_names(s.raw.oflag, output_flag_table())
    &&& s.output.clear@ == spec_clear_names(s.raw.oflag, output_flag_table())
    &&& s.control.set@ == spec_set_names(s.raw.cflag, control_flag_table())
    &&& s.control.clear@ == spec_clear_names(s.raw.cflag, control_flag_table())
    &&& s.local.set@ == spec_set_names(s.raw.lflag, local_flag_table())
    &&& s.local.clear@ == spec_clear_names(s.raw.lflag, local_flag_table())
    &&& s.special@ == spec_special_chars(s.raw.cc@, control_char_table())
}

/// Decompose raw attribute words into a well-formed snapshot.
pub fn decode_attributes(raw: RawAttributes) -> (snap: AttributeSnapshot)
    requires
        raw.cc@.len() == CONTROL_CHAR_COUNT,
    ensures
        snapshot_wf(&snap),
        snap.raw.iflag == raw.iflag,
        snap.raw.oflag == raw.oflag,
        snap.raw.cflag == raw.cflag,
        snap.raw.lflag == raw.lflag,
        snap.raw.cc@ == raw.cc@,
{
    let input = split_flags(raw.iflag, &input_flags());
    let output = split_flags(raw.oflag, &output_flags());
    let control = split_flags(raw.cflag, &control_flags());
    let local = split_flags(raw.lflag, &local_flags());
    let cc_table = control_char_roles();
    let special = read_special_chars(&raw.cc, &cc_table);
    AttributeSnapshot { raw, input, output, control, local, special }
}

/// Take one diagnostic snapshot of the terminal behind `fd`: read its
/// attribute structure once and decompose it.  On failure, the OS
/// error number of the attribute read.
pub fn snapshot(fd: i32) -> (r: Result<AttributeSnapshot, i32>)
    ensures
        r matches Ok(s) ==> snapshot_wf(&s),
{
    match sys_terminal_attributes(fd) {
        Ok(raw) => Ok(decode_attributes(raw)),
        Err(e) => Err(e),
    }
}

/// The input-processing flag table as a vector.
fn input_flags() -> (t: Vec<(u32, &'static str)>)
    ensures
        t@ == input_flag_table(),
{
    let mut t: Vec<(u32, &'static str)> = Vec::new();
    t.push((0o000001, "IGNBRK"));
    t.push((0o000002, "BRKINT"));
    t.push((0o000004, "IGNPAR"));
    t.push((0o000010, "PARMRK"));
    t.push((0o000020, "INPCK"));
    t.push((0o000040, "ISTRIP"));
    t.push((0o000100, "INLCR"));
    t.push((0o000400, "ICRNL"));
    t.push((0o001000, "IUCLC"));
    t.push((0o002000, "IXON"));
    t.push((0o004000, "IXANY"));
    t.push((0o010000, "IXOFF"));
    t.push((0o020000, "IMAXBEL"));
    t.push((0o040000, "IUTF8"));
    proof {
        assert(t@ =~= input_flag_table());
    }
    t
}

/// The output-processing flag table as a vector.
fn output_flags() -> (t: Vec<(u32, &'static str)>)
    ensures
        t@ == output_flag_table(),
{
    let mut t: Vec<(u32, &'static str)> = Vec::new();
    t.push((0o000001, "OPOST"));
    t.push((0o000002, "OLCUC"));
    t.push((0o000004, "ONLCR"));
    t.push((0o000010, "OCRNL"));
    t.push((0o000020, "ONOCR"));
    t.push((0o000040, "ONLRET"));
    t.push((0o000100, "OFILL"));
    t.push((0o000200, "OFDEL"));
    t.push((0o000400, "NLDLY"));
    t.push((0o003000, "CRDLY"));
    t.push((0o014000, "TABDLY"));
    t.push((0o020000, "BSDLY"));
    t.push((0o040000, "VTDLY"));
    t.push((0o100000, "FFDLY"));
    proof {
        assert(t@ =~= output_flag_table());
    }
    t
}

/// The control-mode flag table as a vector.
fn control_flags() -> (t: Vec<(u32, &'static str)>)
    ensures
        t@ == control_flag_table(),
{
    let mut t: Vec<(u32, &'static str)> = Vec::new();
    t.push((0o010017, "CBAUD"));
    t.push((0o010000, "CBAUDEX"));
    t.push((0o000060, "CSIZE"));
    t.push((0o000100, "CSTOPB"));
    t.push((0o000200, "CREAD"));
    t.push((0o000400, "PARENB"));
    t.push((0o001000, "PARODD"));
    t.push((0o002000, "HUPCL"));
    t.push((0o004000, "CLOCAL"));
    t.push((0o02003600000, "CIBAUD"));
    t.push((0o10000000000, "CMSPAR"));
    t.push((0o20000000000, "CRTSCTS"));
    proof {
        assert(t@ =~= control_flag_table());
    }
    t
}

/// The local-mode flag table as a vector.
fn local_flags() -> (t: Vec<(u32, &'static str)>)
    ensures
        t@ == local_flag_table(),
{
    let mut t: Vec<(u32, &'static str)> = Vec::new();
    t.push((0o000001, "ISIG"));
    t.push((0o000002, "ICANON"));
    t.push((0o000004, "XCASE"));
    t.push((0o000010, "ECHO"));
    t.push((0o000020, "ECHOE"));
    t.push((0o000040, "ECHOK"));
    t.push((0o000100, "ECHONL"));
    t.push((0o001000, "ECHOCTL"));
    t.push((0o002000, "ECHOPRT"));
    t.push((0o004000, "ECHOKE"));
    t.push((0o010000, "FLUSHO"));
    t.push((0o000200, "NOFLSH"));
    t.push((0o000400, "TOSTOP"));
    t.push((0o040000, "PENDIN"));
    t.push((0o100000, "IEXTEN"));
    proof {
        assert(t@ =~= local_flag_table());
    }
    t
}

/// The control-character role table as a vector.
fn control_char_roles() -> (t: Vec<(usize, &'static str)>)
    ensures
        t@ == control_char_table(),
        forall|j: int| 0 <= j < t@.len() ==> (t@[j].0 as int) < CONTROL_CHAR_COUNT,
{
    let mut t: Vec<(usize, &'static str)> = Vec::new();
    t.push((13, "VDISCARD"));
    t.push((4, "VEOF"));
    t.push((11, "VEOL"));
    t.push((16, "VEOL2"));
    t.push((2, "VERASE"));
    t.push((0, "VINTR"));
    t.push((3, "VKILL"));
    t.push((15, "VLNEXT"));
    t.push((6, "VMIN"));
    t.push((1, "VQUIT"));
    t.push((12, "VREPRINT"));
    t.push((8, "VSTART"));
    t.push((9, "VSTOP"));
    t.push((10, "VSUSP"));
    t.push((7, "VSWTCH"));
    t.push((5, "VTIME"));
    t.push((14, "VWERASE"));
    proof {
        assert(t@ =~= control_char_table());
    }
    t
}

} // verus!

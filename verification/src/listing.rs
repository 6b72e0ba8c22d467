//! Directory-listing formatting: the Unix-style LIST line, the RFC 3659
//! machine-readable MLSD line, and the permission-bit renderings both use.
//!
//! The filesystem metadata arrives as plain values — the surrounding
//! application reads them from disk and converts the modification time to
//! calendar parts — and every formatted byte is pinned down here.

use vstd::prelude::*;

use crate::text::{append_dec, append_dec2, append_dec4, push_char, spec_dec, spec_dec2, spec_dec4};

verus! {

/// A modification time, split into calendar parts.
#[derive(Debug, Clone, Copy, PartialEq, Eq, Structural)]
pub struct DateParts {
    pub year: u64,
    pub month: u64,
    pub day: u64,
    pub hour: u64,
    pub minute: u64,
    pub second: u64,
}

/// The calendar ranges the formatters rely on.
pub open spec fn date_valid(d: DateParts) -> bool {
    &&& d.year <= 9999
    &&& 1 <= d.month <= 12
    &&& 1 <= d.day <= 31
    &&& d.hour < 24
    &&& d.minute < 60
    &&& d.second < 60
}

/// One directory entry, as plain values.
#[derive(Debug, Clone, PartialEq)]
pub struct EntryMeta {
    pub name: String,
    pub is_dir: bool,
    pub size: u64,
    pub links: u64,
    pub uid: u32,
    pub gid: u32,
    pub mode: u32,
    pub modified: DateParts,
}

/// One rwx triplet of the permission string, selected by three mode masks.
pub open spec fn spec_perm_triplet(mode: u32, mr: u32, mw: u32, mx: u32) -> Seq<char> {
    seq![
        if mode & mr != 0 {
            'r'
        } else {
            '-'
        },
        if mode & mw != 0 {
            'w'
        } else {
            '-'
        },
        if mode & mx != 0 {
            'x'
        } else {
            '-'
        },
    ]
}

/// The nine-character permission rendering of a mode word, triplet by
/// triplet over the mask families 4/32/256, 2/16/128 and 1/8/64.
pub open spec fn spec_permissions(mode: u32) -> Seq<char> {
    spec_perm_triplet(mode, 4, 32, 256) + spec_perm_triplet(mode, 2, 16, 128) + spec_perm_triplet(
        mode,
        1,
        8,
        64,
    )
}

fn append_perm_triplet(out: &mut String, mode: u32, mr: u32, mw: u32, mx: u32)
    ensures
        final(out)@ == old(out)@ + spec_perm_triplet(mode, mr, mw, mx),
{
    push_char(out, if mode & mr != 0 { 'r' } else { '-' });
    push_char(out, if mode & mw != 0 { 'w' } else { '-' });
    push_char(out, if mode & mx != 0 { 'x' } else { '-' });
    proof {
        assert(old(out)@ + seq![
            if mode & mr != 0 {
                'r'
            } else {
                '-'
            },
        ] + seq![
            if mode & mw != 0 {
                'w'
            } else {
                '-'
            },
        ] + seq![
            if mode & mx != 0 {
                'x'
            } else {
                '-'
            },
        ] =~= old(out)@ + spec_perm_triplet(mode, mr, mw, mx));
    }
}

/// Renders a mode word as the nine permission characters of a LIST line.
pub fn permissions_to_string(permissions: u32) -> (r: String)
    ensures
        r@ == spec_permissions(permissions),
{
    let mut out = String::new();
    append_perm_triplet(&mut out, permissions, 4, 32, 256);
    append_perm_triplet(&mut out, permissions, 2, 16, 128);
    append_perm_triplet(&mut out, permissions, 1, 8, 64);
    proof {
        assert(Seq::<char>::empty() + spec_perm_triplet(permissions, 4, 32, 256)
            + spec_perm_triplet(permissions, 2, 16, 128) + spec_perm_triplet(permissions, 1, 8, 64)
            =~= spec_permissions(permissions));
    }
    out
}

/// The RFC 3659 `Perm=` fact: for a directory the e/l/a/c capabilities by
/// mode bits, for a file one character per triplet — r where readable, else
/// w where writable, else nothing.
pub open spec fn spec_machine_permissions(is_dir: bool, mode: u32) -> Seq<char> {
    if is_dir {
        (if mode & 64 != 0 {
            seq!['e']
        } else {
            Seq::empty()
        }) + (if mode & 128 != 0 {
            seq!['l']
        } else {
            Seq::empty()
        }) + (if mode & 256 != 0 {
            seq!['a']
        } else {
            Seq::empty()
        }) + (if mode & 512 != 0 {
            seq!['c']
        } else {
            Seq::empty()
        })
    } else {
        spec_machine_file_char(mode, 4, 32) + spec_machine_file_char(mode, 2, 16)
            + spec_machine_file_char(mode, 1, 8)
    }
}

/// One file permission character of the `Perm=` fact: r where the read bit
/// is set, else w where the write bit is, else nothing.
pub open spec fn spec_machine_file_char(mode: u32, mr: u32, mw: u32) -> Seq<char> {
    if mode & mr != 0 {
        seq!['r']
    } else if mode & mw != 0 {
        seq!['w']
    } else {
        Seq::empty()
    }
}

fn append_machine_file_char(out: &mut String, mode: u32, mr: u32, mw: u32)
    ensures
        final(out)@ == old(out)@ + spec_machine_file_char(mode, mr, mw),
{
    if mode & mr != 0 {
        push_char(out, 'r');
    } else if mode & mw != 0 {
        push_char(out, 'w');
    } else {
        proof {
            assert(old(out)@ + Seq::<char>::empty() =~= old(out)@);
        }
    }
}

/// Renders the RFC 3659 `Perm=` fact of an entry.
pub fn permissions_to_machine_string(is_dir: bool, mode: u32) -> (r: String)
    ensures
        r@ == spec_machine_permissions(is_dir, mode),
{
    let mut out = String::new();
    if is_dir {
        if mode & 64 != 0 {
            push_char(&mut out, 'e');
        }
        if mode & 128 != 0 {
            push_char(&mut out, 'l');
        }
        if mode & 256 != 0 {
            push_char(&mut out, 'a');
        }
        if mode & 512 != 0 {
            push_char(&mut out, 'c');
        }
        proof {
            assert(out@ =~= spec_machine_permissions(is_dir, mode));
        }
    } else {
        append_machine_file_char(&mut out, mode, 4, 32);
        append_machine_file_char(&mut out, mode, 2, 16);
        append_machine_file_char(&mut out, mode, 1, 8);
        proof {
            assert(out@ =~= spec_machine_permissions(is_dir, mode));
        }
    }
    out
}

/// The day of month, space-padded to two columns.
pub open spec fn spec_day_padded(day: nat) -> Seq<char> {
    if day < 10 {
        seq![' '] + spec_dec(day)
    } else {
        spec_dec(day)
    }
}

/// The three-letter month abbreviation.
pub open spec fn spec_month_abbrev(month: nat) -> Seq<char> {
    if month == 1 {
        "Jan"@
    } else if month == 2 {
        "Feb"@
    } else if month == 3 {
        "Mar"@
    } else if month == 4 {
        "Apr"@
    } else if month == 5 {
        "May"@
    } else if month == 6 {
        "Jun"@
    } else if month == 7 {
        "Jul"@
    } else if month == 8 {
        "Aug"@
    } else if month == 9 {
        "Sep"@
    } else if month == 10 {
        "Oct"@
    } else if month == 11 {
        "Nov"@
    } else {
        "Dec"@
    }
}

fn month_abbrev(month: u64) -> (r: &'static str)
    requires
        1 <= month <= 12,
    ensures
        r@ == spec_month_abbrev(month as nat),
{
    match month {
        1 => "Jan",
        2 => "Feb",
        3 => "Mar",
        4 => "Apr",
        5 => "May",
        6 => "Jun",
        7 => "Jul",
        8 => "Aug",
        9 => "Sep",
        10 => "Oct",
        11 => "Nov",
        _ => "Dec",
    }
}

/// The LIST date column: day space-padded, month abbreviation, two-digit
/// year, and hour:minute.
pub open spec fn spec_list_date(d: DateParts) -> Seq<char> {
    spec_day_padded(d.day as nat) + seq![' '] + spec_month_abbrev(d.month as nat) + seq![' ']
        + spec_dec2((d.year % 100) as nat) + seq![' '] + spec_dec2(d.hour as nat) + seq![':']
        + spec_dec2(d.minute as nat)
}

/// Formats the LIST date column.
pub fn format_list_date(d: &DateParts) -> (r: String)
    requires
        date_valid(*d),
    ensures
        r@ == spec_list_date(*d),
{
    let mut out = String::new();
    if d.day < 10 {
        push_char(&mut out, ' ');
    }
    append_dec(&mut out, d.day);
    push_char(&mut out, ' ');
    out.append(month_abbrev(d.month));
    push_char(&mut out, ' ');
    append_dec2(&mut out, d.year % 100);
    push_char(&mut out, ' ');
    append_dec2(&mut out, d.hour);
    push_char(&mut out, ':');
    append_dec2(&mut out, d.minute);
    proof {
        assert(out@ =~= spec_list_date(*d));
    }
    out
}

/// The MLSD `Modify=` timestamp: the calendar parts, zero-padded, run
/// together.
pub open spec fn spec_mlsd_time(d: DateParts) -> Seq<char> {
    spec_dec4(d.year as nat) + spec_dec2(d.month as nat) + spec_dec2(d.day as nat) + spec_dec2(
        d.hour as nat,
    ) + spec_dec2(d.minute as nat) + spec_dec2(d.second as nat)
}

/// Formats the MLSD `Modify=` timestamp.
pub fn format_mlsd_time(d: &DateParts) -> (r: String)
    requires
        date_valid(*d),
    ensures
        r@ == spec_mlsd_time(*d),
{
    let mut out = String::new();
    append_dec4(&mut out, d.year);
    append_dec2(&mut out, d.month);
    append_dec2(&mut out, d.day);
    append_dec2(&mut out, d.hour);
    append_dec2(&mut out, d.minute);
    append_dec2(&mut out, d.second);
    proof {
        assert(out@ =~= spec_mlsd_time(*d));
    }
    out
}

/// The Unix-style LIST line of an entry.
pub open spec fn spec_list_line(m: EntryMeta) -> Seq<char> {
    seq![
        if m.is_dir {
            'd'
        } else {
            '-'
        },
    ] + spec_permissions(m.mode) + seq![' '] + spec_dec(m.links as nat) + seq![' '] + spec_dec(
        m.uid as nat,
    ) + seq![' '] + spec_dec(m.gid as nat) + seq![' '] + spec_list_date(m.modified) + seq![' ']
        + m.name@ + "\r\n"@
}

/// Formats the Unix-style LIST line of an entry.
pub fn list_line(m: &EntryMeta) -> (r: String)
    requires
        date_valid(m.modified),
    ensures
        r@ == spec_list_line(*m),
{
    let mut out = String::new();
    push_char(&mut out, if m.is_dir { 'd' } else { '-' });
    let perms = permissions_to_string(m.mode);
    out.append(perms.as_str());
    push_char(&mut out, ' ');
    append_dec(&mut out, m.links);
    push_char(&mut out, ' ');
    append_dec(&mut out, m.uid as u64);
    push_char(&mut out, ' ');
    append_dec(&mut out, m.gid as u64);
    push_char(&mut out, ' ');
    let date = format_list_date(&m.modified);
    out.append(date.as_str());
    push_char(&mut out, ' ');
    out.append(m.name.as_str());
    out.append("\r\n");
    proof {
        assert(out@ =~= spec_list_line(*m));
    }
    out
}

/// The RFC 3659 machine-readable MLSD line of an entry.
pub open spec fn spec_mlsd_line(m: EntryMeta) -> Seq<char> {
    "Type="@ + (if m.is_dir {
        "dir"@
    } else {
        "file"@
    }) + ";Size="@ + spec_dec(m.size as nat) + ";Modify="@ + spec_mlsd_time(m.modified) + ";Perm="@
        + spec_machine_permissions(m.is_dir, m.mode) + seq![' '] + m.name@ + "\r\n"@
}

/// Formats the RFC 3659 machine-readable MLSD line of an entry.
pub fn mlsd_line(m: &EntryMeta) -> (r: String)
    requires
        date_valid(m.modified),
    ensures
        r@ == spec_mlsd_line(*m),
{
    let mut out = String::from_str("Type=");
    out.append(if m.is_dir { "dir" } else { "file" });
    out.append(";Size=");
    append_dec(&mut out, m.size);
    out.append(";Modify=");
    let time = format_mlsd_time(&m.modified);
    out.append(time.as_str());
    out.append(";Perm=");
    let perms = permissions_to_machine_string(m.is_dir, m.mode);
    out.append(perms.as_str());
    push_char(&mut out, ' ');
    out.append(m.name.as_str());
    out.append("\r\n");
    proof {
        assert(out@ =~= spec_mlsd_line(*m));
    }
    out
}

} // verus!

//! The records that the local address plugin keeps on disk: one file for
//! each address that is given out, named after the address, and one file
//! for each range that holds the address given out last.

use vstd::prelude::*;
use crate::addr::IpAddr;
use crate::text::str_eq;

verus! {

/// What separates the container from the interface in a record.
pub const LINE_BREAK: &'static str = "\r\n";

/// What the name of the file with the address given out last starts with.
pub const LAST_IPFILE_PREFIX: &'static str = "last_reserved_ip_";

/// Where the records are kept unless the configuration says otherwise.
pub const DEFAULT_DATA_DIR: &'static str = "/var/lib/cni/networks";

/// A text without the white space at its start and at its end.
pub uninterp spec fn trimmed(s: Seq<char>) -> Seq<char>;

/// `str::trim`: the text without leading and trailing white space.
#[verifier::external_body]
fn trim(s: &str) -> (r: &str)
    ensures
        r@ == trimmed(s@),
{
    s.trim()
}

/// The directory of the records: the one configured, or the default.
pub fn data_dir(configured: Option<String>) -> (dir: String)
    ensures
        dir@ == (match configured {
            Some(d) => d@,
            None => DEFAULT_DATA_DIR@,
        }),
{
    match configured {
        Some(d) => d,
        None => String::from_str(DEFAULT_DATA_DIR),
    }
}

/// The content of the record of an address: the container it was given to
/// and the interface it was given for.
pub open spec fn record_text(id: Seq<char>, ifname: Seq<char>) -> Seq<char> {
    id + LINE_BREAK@ + ifname
}

/// The content of the record of an address.
pub fn record(id: &str, ifname: &str) -> (content: String)
    ensures
        content@ == record_text(id@, ifname@),
{
    let mut content = String::from_str(id);
    content.append(LINE_BREAK);
    content.append(ifname);
    content
}

/// Whether a record with the given content belongs to a container and an
/// interface; white space around the content does not count.
pub fn recorded_for(data: &str, id: &str, ifname: &str) -> (b: bool)
    ensures
        b == (trimmed(data@) == record_text(id@, ifname@)),
{
    let text_match = record(id, ifname);
    str_eq(trim(data), text_match.as_str())
}

/// The address that a record is about, read from the name of its file.
pub fn recorded_ip(file_name: &str) -> (ip: Option<IpAddr>)
    ensures
        ip == IpAddr::of_text(file_name@),
{
    match IpAddr::from_str(file_name) {
        Ok(ip) => Some(ip),
        Err(_) => None,
    }
}

/// The name of the file that holds the address given out last from a range.
pub fn last_ip_file(range_id: &str) -> (name: String)
    ensures
        name@ == LAST_IPFILE_PREFIX@ + range_id@,
{
    let mut name = String::from_str(LAST_IPFILE_PREFIX);
    name.append(range_id);
    name
}

} // verus!

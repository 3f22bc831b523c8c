//! The version stage: metadata of the linked OpenSSL and the optional
//! installation directory that the environment names.

use vstd::prelude::*;

use crate::hex::{hex_digit, push_hex_digit};
use crate::ossl::{debug_quoted, debug_quoted_of, linked_version_number, linked_version_text};

verus! {

/// What the version stage reports.
pub struct VersionInfo {
    /// The human-readable version text of the linked library.
    pub version: String,
    /// The numeric version identifier of the linked library.
    pub number: i64,
    /// The installation directory the environment names, if any.
    pub install_dir: Option<String>,
}

/// The decimal digits of `n`, most significant first, without leading zeros.
pub open spec fn decimal_of_nat(n: nat) -> Seq<char>
    decreases n,
{
    if n < 10 {
        seq![hex_digit(n as u8)]
    } else {
        decimal_of_nat(n / 10).push(hex_digit((n % 10) as u8))
    }
}

/// `n` in decimal, with a leading `-` when negative.
pub open spec fn decimal_of(n: int) -> Seq<char> {
    if n < 0 {
        seq!['-'] + decimal_of_nat((-n) as nat)
    } else {
        decimal_of_nat(n as nat)
    }
}

/// How an installation directory is shown: `Some("<path>")` with the path
/// quoted as `Debug` quotes it, or `None` when the environment names none.
pub open spec fn install_dir_text_of(dir: Option<Seq<char>>) -> Seq<char> {
    match dir {
        Some(d) => "Some("@ + debug_quoted_of(d) + ")"@,
        None => "None"@,
    }
}

/// The lines of the version report.
pub open spec fn version_report(version: Seq<char>, number: int, dir: Option<Seq<char>>) -> Seq<
    Seq<char>,
> {
    seq![
        "Version: "@ + version,
        "Version Number: "@ + decimal_of(number),
        "OpenSSL Dir: "@ + install_dir_text_of(dir),
    ]
}

fn push_decimal(s: &mut String, m: u64)
    ensures
        final(s)@ == old(s)@ + decimal_of_nat(m as nat),
    decreases m,
{
    if m >= 10 {
        push_decimal(s, m / 10);
    }
    push_hex_digit(s, (m % 10) as u8);
    assert(final(s)@ =~= old(s)@ + decimal_of_nat(m as nat));
}

/// `n` rendered in decimal.
pub fn decimal_text(n: i64) -> (r: String)
    ensures
        r@ == decimal_of(n as int),
{
    let mut r = String::new();
    if n < 0 {
        r.append("-");
        proof {
            reveal_strlit("-");
        }
        let m: u64 = (-(n as i128)) as u64;
        push_decimal(&mut r, m);
    } else {
        push_decimal(&mut r, n as u64);
    }
    assert(r@ =~= decimal_of(n as int));
    r
}

/// The installation directory as shown in the report: `Some("<path>")`, or
/// an explicit `None` when it is absent.
pub fn install_dir_text(dir: &Option<String>) -> (r: String)
    ensures
        r@ == install_dir_text_of(
            match dir {
                Some(d) => Some(d@),
                None => None,
            },
        ),
{
    match dir {
        Some(d) => {
            let mut r = String::from_str("Some(");
            let quoted = debug_quoted(d.as_str());
            r.append(quoted.as_str());
            r.append(")");
            r
        },
        None => String::from_str("None"),
    }
}

/// Gathers the linked library's version text (never empty) and number, with the
/// installation directory the caller read from its environment.
pub fn version_info(install_dir: Option<String>) -> (r: VersionInfo)
    ensures
        r.version@.len() > 0,
        r.install_dir == install_dir,
{
    VersionInfo {
        version: linked_version_text(),
        number: linked_version_number(),
        install_dir,
    }
}

impl VersionInfo {
    /// The lines of the version report for this metadata.
    pub fn report_lines(&self) -> (r: Vec<String>)
        ensures
            r@.map_values(|l: String| l@) == version_report(
                self.version@,
                self.number as int,
                match self.install_dir {
                    Some(d) => Some(d@),
                    None => None,
                },
            ),
    {
        let mut a = String::from_str("Version: ");
        a.append(self.version.as_str());
        let mut b = String::from_str("Version Number: ");
        let num = decimal_text(self.number);
        b.append(num.as_str());
        let mut c = String::from_str("OpenSSL Dir: ");
        let dir = install_dir_text(&self.install_dir);
        c.append(dir.as_str());
        let r = vec![a, b, c];
        assert(r@.map_values(|l: String| l@) =~= version_report(
            self.version@,
            self.number as int,
            match self.install_dir {
                Some(d) => Some(d@),
                None => None,
            },
        ));
        r
    }
}

} // verus!

//! The network statistics source.

use vstd::prelude::*;
use vstd::string::*;
use crate::text::{decimal, decimal_text, joined, join_lines, texts};

verus! {

broadcast use vstd::string::group_string_axioms;

/// Which network figures are shown.
#[derive(Clone, Copy, Debug)]
pub struct NetworkOptions {
    pub use_interface_max_speed: bool,
    pub show_download_speed: bool,
    pub show_upload_speed: bool,
    pub show_max_download: bool,
    pub show_max_upload: bool,
    pub show_total_download: bool,
    pub show_total_upload: bool,
    pub show_utilization: bool,
    /// Upper-case labels.
    pub stylized_chars: bool,
}

#[derive(Clone, Copy, Debug)]
pub struct NetworkStatsOptions {
    pub enabled: bool,
    pub config: NetworkOptions,
}

impl NetworkStatsOptions {
    /// Enabled settings with the given figures.
    pub fn new(config: NetworkOptions) -> (r: NetworkStatsOptions)
        ensures
            r.enabled,
            r.config == config,
    {
        NetworkStatsOptions { enabled: true, config }
    }
}

/// Bytes in a mebibyte.
pub const BYTES_PER_MB: u64 = 1048576;

/// `"Total Download: "`, in capitals when stylized.
pub open spec fn download_label(stylized: bool) -> Seq<char> {
    if stylized {
        seq!['T', 'O', 'T', 'A', 'L', ' ', 'D', 'O', 'W', 'N', 'L', 'O', 'A', 'D', ':', ' ']
    } else {
        seq!['T', 'o', 't', 'a', 'l', ' ', 'D', 'o', 'w', 'n', 'l', 'o', 'a', 'd', ':', ' ']
    }
}

/// `"Total Upload: "`, in capitals when stylized.
pub open spec fn upload_label(stylized: bool) -> Seq<char> {
    if stylized {
        seq!['T', 'O', 'T', 'A', 'L', ' ', 'U', 'P', 'L', 'O', 'A', 'D', ':', ' ']
    } else {
        seq!['T', 'o', 't', 'a', 'l', ' ', 'U', 'p', 'l', 'o', 'a', 'd', ':', ' ']
    }
}

/// A byte count as whole mebibytes: `"<n> MB"`.
pub open spec fn megabytes(bytes: u64) -> Seq<char> {
    decimal((bytes / BYTES_PER_MB) as nat) + seq![' ', 'M', 'B']
}

/// One line for a shown figure that is known.
pub open spec fn figure_line(shown: bool, label: Seq<char>, bytes: Option<u64>) -> Seq<Seq<char>> {
    match bytes {
        Some(b) => if shown {
            seq![label + megabytes(b)]
        } else {
            Seq::empty()
        },
        None => Seq::empty(),
    }
}

/// The lines of the network text for the given totals.
pub open spec fn network_lines(options: NetworkOptions, total_download: Option<u64>, total_upload: Option<u64>) -> Seq<
    Seq<char>,
> {
    figure_line(options.show_total_download, download_label(options.stylized_chars), total_download)
        + figure_line(options.show_total_upload, upload_label(options.stylized_chars), total_upload)
}

fn push_figure(out: &mut Vec<String>, shown: bool, label: &str, bytes: Option<u64>)
    ensures
        texts(final(out)@) == texts(old(out)@) + figure_line(shown, label@, bytes),
{
    let ghost before = texts(out@);
    match bytes {
        Some(b) => {
            if shown {
                proof {
                    reveal_strlit(" MB");
                }
                let mut line = String::from_str(label);
                let n = decimal_text(b / BYTES_PER_MB);
                line.append(n.as_str());
                line.append(" MB");
                assert(" MB"@ =~= seq![' ', 'M', 'B']);
                assert(line@ =~= label@ + megabytes(b));
                out.push(line);
                assert(texts(out@) =~= before + figure_line(shown, label@, bytes));
                return;
            }
        },
        None => {},
    }
    assert(texts(out@) =~= before + figure_line(shown, label@, bytes));
}

/// The network source.
pub struct NetworkStats;

impl NetworkStats {
    /// Bytes received on the interface; no counter is read yet.
    pub fn get_total_download(_interface_name: &str) -> (r: Option<u64>)
        ensures
            r is None,
    {
        None
    }

    /// Bytes sent on the interface; no counter is read yet.
    pub fn get_total_upload(_interface_name: &str) -> (r: Option<u64>)
        ensures
            r is None,
    {
        None
    }

    /// The network text for the given totals: one line per shown and known figure.
    pub fn format_stats(options: &NetworkOptions, total_download: Option<u64>, total_upload: Option<u64>) -> (r: String)
        ensures
            r@ == joined(network_lines(*options, total_download, total_upload)),
    {
        let mut lines: Vec<String> = Vec::new();
        assert(texts(lines@) =~= Seq::<Seq<char>>::empty());
        proof {
            reveal_strlit("TOTAL DOWNLOAD: ");
            reveal_strlit("Total Download: ");
            reveal_strlit("TOTAL UPLOAD: ");
            reveal_strlit("Total Upload: ");
        }
        let down = if options.stylized_chars {
            "TOTAL DOWNLOAD: "
        } else {
            "Total Download: "
        };
        assert(down@ =~= download_label(options.stylized_chars));
        push_figure(&mut lines, options.show_total_download, down, total_download);
        let up = if options.stylized_chars {
            "TOTAL UPLOAD: "
        } else {
            "Total Upload: "
        };
        assert(up@ =~= upload_label(options.stylized_chars));
        push_figure(&mut lines, options.show_total_upload, up, total_upload);
        join_lines(&lines)
    }

    /// The network text of the interface, from the figures it reports (none yet).
    pub fn get_formatted_stats(options: &NetworkOptions, interface_name: &str) -> (r: String)
        ensures
            r@ == joined(network_lines(*options, None, None)),
    {
        let down = Self::get_total_download(interface_name);
        let up = Self::get_total_upload(interface_name);
        Self::format_stats(options, down, up)
    }
}

} // verus!

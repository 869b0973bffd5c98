//! Data file management for ASSIST: the kernel catalog, the cache layout,
//! the offline check, and the decisions that keep the cache fresh.
//!
//! ASSIST needs three kinds of files to run end-to-end:
//!
//! 1. Planetary + asteroid ephemerides (`de440.bsp`, `sb441-n16.bsp`)
//! 2. MPC observatory codes (`obscodes_extended.json`) for observer lookups
//! 3. Earth orientation binary PCK kernels (`earth_*.bpc`) for sub-mas
//!    ITRF93 → ICRF rotation of ground-based observatories. Three kernels
//!    together span 1962 → ~2125: historical, current high-precision, and
//!    long-term predict.
//!
//! Each downloaded file gets a `<filename>.meta.json` sidecar ([`FileMeta`])
//! with MD5 hash, Content-Length, and Last-Modified from the HTTP response.
//! On subsequent runs, non-static files are checked against the remote and
//! re-downloaded if the MD5 doesn't match or the remote metadata differs.

use vstd::prelude::*;
use vstd::string::*;
use crate::status::io_error_text;
use crate::text::{decimal, digit_char, text_eq};

verus! {

// ─── Kernel catalog ─────────────────────────────────────────────────────────

/// One file of the data set: where it lives in the cache and upstream.
#[derive(Debug, Clone, Copy)]
pub struct KernelEntry {
    pub filename: &'static str,
    pub url: &'static str,
    /// The upstream file is gzip-compressed and is stored decompressed.
    pub gzipped: bool,
    /// Upstream never republishes this file under the same name.
    pub is_static: bool,
}

/// Number of files in the catalog.
pub const KERNEL_COUNT: usize = 6;

/// The catalog's file names, in download order.
pub open spec fn kernel_filename(i: int) -> Seq<char> {
    if i == 0 { "de440.bsp"@ }
    else if i == 1 { "sb441-n16.bsp"@ }
    else if i == 2 { "obscodes_extended.json"@ }
    else if i == 3 { "earth_latest_high_prec.bpc"@ }
    else if i == 4 { "earth_620120_250826.bpc"@ }
    else { "earth_2025_250826_2125_predict.bpc"@ }
}

/// The catalog's source URLs.
pub open spec fn kernel_url(i: int) -> Seq<char> {
    if i == 0 { "https://naif.jpl.nasa.gov/pub/naif/generic_kernels/spk/planets/de440.bsp"@ }
    else if i == 1 { "https://ssd.jpl.nasa.gov/ftp/eph/small_bodies/asteroids_de441/sb441-n16.bsp"@ }
    else if i == 2 { "https://minorplanetcenter.net/Extended_Files/obscodes_extended.json.gz"@ }
    else if i == 3 { "https://naif.jpl.nasa.gov/pub/naif/generic_kernels/pck/earth_latest_high_prec.bpc"@ }
    else if i == 4 { "https://naif.jpl.nasa.gov/pub/naif/generic_kernels/pck/earth_620120_250826.bpc"@ }
    else { "https://naif.jpl.nasa.gov/pub/naif/generic_kernels/pck/earth_2025_250826_2125_predict.bpc"@ }
}

/// Only the observatory codes arrive gzip-compressed.
pub open spec fn kernel_gzipped(i: int) -> bool {
    i == 2
}

/// The observatory codes and the weekly high-precision Earth orientation
/// kernel change upstream; every other file is fixed.
pub open spec fn kernel_is_static(i: int) -> bool {
    i != 2 && i != 3
}

/// `e` is catalog entry `i`.
pub open spec fn is_catalog_entry(e: KernelEntry, i: int) -> bool {
    &&& e.filename@ == kernel_filename(i)
    &&& e.url@ == kernel_url(i)
    &&& e.gzipped == kernel_gzipped(i)
    &&& e.is_static == kernel_is_static(i)
}

/// The files the data manager keeps in its cache. NAIF periodically
/// republishes the historical and predict Earth orientation kernels under
/// filenames encoding their coverage; `earth_latest_high_prec.bpc` is a
/// stable endpoint NAIF updates about weekly.
pub fn default_kernels() -> (v: Vec<KernelEntry>)
    ensures
        v@.len() == KERNEL_COUNT,
        forall|i: int| 0 <= i < KERNEL_COUNT ==> is_catalog_entry(#[trigger] v@[i], i),
{
    let mut v: Vec<KernelEntry> = Vec::new();
    v.push(KernelEntry {
        filename: "de440.bsp",
        url: "https://naif.jpl.nasa.gov/pub/naif/generic_kernels/spk/planets/de440.bsp",
        gzipped: false,
        is_static: true,
    });
    v.push(KernelEntry {
        filename: "sb441-n16.bsp",
        url: "https://ssd.jpl.nasa.gov/ftp/eph/small_bodies/asteroids_de441/sb441-n16.bsp",
        gzipped: false,
        is_static: true,
    });
    v.push(KernelEntry {
        filename: "obscodes_extended.json",
        url: "https://minorplanetcenter.net/Extended_Files/obscodes_extended.json.gz",
        gzipped: true,
        is_static: false,
    });
    v.push(KernelEntry {
        filename: "earth_latest_high_prec.bpc",
        url: "https://naif.jpl.nasa.gov/pub/naif/generic_kernels/pck/earth_latest_high_prec.bpc",
        gzipped: false,
        is_static: false,
    });
    v.push(KernelEntry {
        filename: "earth_620120_250826.bpc",
        url: "https://naif.jpl.nasa.gov/pub/naif/generic_kernels/pck/earth_620120_250826.bpc",
        gzipped: false,
        is_static: true,
    });
    v.push(KernelEntry {
        filename: "earth_2025_250826_2125_predict.bpc",
        url: "https://naif.jpl.nasa.gov/pub/naif/generic_kernels/pck/earth_2025_250826_2125_predict.bpc",
        gzipped: false,
        is_static: true,
    });
    v
}

// ─── Paths ──────────────────────────────────────────────────────────────────

/// Name for the text of `Path::new(dir).join(name)`.
pub uninterp spec fn joined_path(dir: Seq<char>, name: Seq<char>) -> Seq<char>;

/// `Path::join` on UTF-8 text.
///
/// Trusted: the result is the text of the joined path, a function of the
/// two arguments alone; how separators are placed is not stated.
#[verifier::external_body]
pub(crate) fn join_path(dir: &str, name: &str) -> (r: String)
    ensures
        r@ == joined_path(dir@, name@),
{
    std::path::Path::new(dir).join(name).to_string_lossy().into_owned()
}

/// Resolved paths to all data files ASSIST needs.
#[derive(Debug, Clone)]
pub struct AssistDataPaths {
    /// DE440 planetary ephemeris SPK.
    pub planets: String,
    /// SB441 N=16 small-body perturber SPK.
    pub asteroids: String,
    /// MPC observatory codes JSON (decompressed).
    pub obscodes: String,
    /// Current high-precision Earth orientation PCK, updated ~weekly by NAIF.
    /// Covers approximately 2000 to the near future.
    pub eop_high_prec: String,
    /// Historical Earth orientation PCK (1962 → ~present).
    pub eop_historical: String,
    /// Long-term Earth orientation predict PCK (~2025 → 2125).
    pub eop_predict: String,
}

/// The path field that holds catalog file `i`.
pub open spec fn path_for_kernel(p: AssistDataPaths, i: int) -> Seq<char> {
    if i == 0 { p.planets@ }
    else if i == 1 { p.asteroids@ }
    else if i == 2 { p.obscodes@ }
    else if i == 3 { p.eop_high_prec@ }
    else if i == 4 { p.eop_historical@ }
    else { p.eop_predict@ }
}

impl AssistDataPaths {
    /// The three Earth orientation kernel paths in the order predict,
    /// historical, current. Where loaded kernels overlap, the earlier-listed
    /// one serves the epoch (`earth_orientation::first_covering`), so in this
    /// order the current high-precision kernel does not win where the others
    /// also cover an epoch: it serves only the epochs neither of them covers
    /// (`earth_orientation::lemma_earliest_listed_kernel_serves`).
    pub fn eop_kernels(&self) -> (r: [&String; 3])
        ensures
            *r[0] == self.eop_predict,
            *r[1] == self.eop_historical,
            *r[2] == self.eop_high_prec,
    {
        [&self.eop_predict, &self.eop_historical, &self.eop_high_prec]
    }
}

// ─── DataError ──────────────────────────────────────────────────────────────

/// Errors from the data manager.
#[derive(Debug)]
pub enum DataError {
    /// Required files are missing (offline mode).
    MissingFiles(Vec<String>),
    /// HTTP request failed.
    Http(String),
    /// I/O error.
    Io(std::io::Error),
}

/// `names` joined with ", " between consecutive elements.
pub open spec fn comma_joined(names: Seq<Seq<char>>) -> Seq<char>
    decreases names.len(),
{
    if names.len() == 0 {
        Seq::empty()
    } else if names.len() == 1 {
        names[0]
    } else {
        comma_joined(names.drop_last()) + ", "@ + names.last()
    }
}

/// The views of a list of strings.
pub open spec fn string_views(v: Seq<String>) -> Seq<Seq<char>> {
    v.map_values(|s: String| s@)
}

impl DataError {
    /// The human-readable message of this error (what `Display` shows).
    pub fn message(&self) -> (r: String)
        ensures
            match *self {
                DataError::MissingFiles(files) => r@ == "missing data files: "@ + comma_joined(
                    string_views(files@),
                ),
                DataError::Http(msg) => r@ == "HTTP error: "@ + msg@,
                DataError::Io(_) => r@.len() >= "I/O error: "@.len() && r@.subrange(
                    0,
                    "I/O error: "@.len() as int,
                ) == "I/O error: "@,
            },
    {
        match self {
            DataError::MissingFiles(files) => {
                let mut s = String::from_str("missing data files: ");
                let ghost head = s@;
                let mut i: usize = 0;
                while i < files.len()
                    invariant
                        i <= files@.len(),
                        head == "missing data files: "@,
                        s@ == head + comma_joined(string_views(files@.subrange(0, i as int))),
                    decreases files@.len() - i,
                {
                    proof {
                        let pre = files@.subrange(0, i as int);
                        let post = files@.subrange(0, i + 1);
                        assert(post.drop_last() =~= pre);
                        assert(string_views(post).drop_last() =~= string_views(pre));
                        assert(string_views(post).last() == files@[i as int]@);
                    }
                    if i > 0 {
                        s.append(", ");
                    }
                    s.append(files[i].as_str());
                    proof {
                        let pre = files@.subrange(0, i as int);
                        let post = files@.subrange(0, i + 1);
                        if i == 0 {
                            assert(string_views(post) =~= seq![files@[0]@]);
                        }
                    }
                    i = i + 1;
                }
                proof {
                    assert(files@.subrange(0, files@.len() as int) =~= files@);
                }
                s
            },
            DataError::Http(msg) => String::from_str("HTTP error: ").concat(msg.as_str()),
            DataError::Io(e) => {
                let t = io_error_text(e);
                let s = String::from_str("I/O error: ").concat(t.as_str());
                proof {
                    assert(s@.subrange(0, "I/O error: "@.len() as int) =~= "I/O error: "@);
                }
                s
            },
        }
    }
}

// ─── Stored contents ────────────────────────────────────────────────────────

/// Name for what `flate2::read::GzDecoder` yields when read to the end over
/// `data`: the decompressed contents of the gzip stream that `data` begins
/// with, or nothing when the stream is malformed or truncated.
pub uninterp spec fn gunzipped(data: Seq<u8>) -> Option<Seq<u8>>;

/// Decompresses a gzip stream with `flate2::read::GzDecoder`, reading it to the end.
///
/// Trusted: decoding succeeds exactly when `gunzipped` has a value for the
/// input, and then yields that value; the error text is not stated.
#[verifier::external_body]
fn gunzip(data: &[u8]) -> (r: Result<Vec<u8>, std::io::Error>)
    ensures
        r is Ok <==> gunzipped(data@) is Some,
        r matches Ok(v) ==> gunzipped(data@) == Some(v@),
{
    let mut out: Vec<u8> = Vec::new();
    let mut decoder = flate2::read::GzDecoder::new(data);
    match std::io::Read::read_to_end(&mut decoder, &mut out) {
        Ok(_) => Ok(out),
        Err(e) => Err(e),
    }
}

/// The bytes stored in the cache for a downloaded body: the body itself, or
/// its decompressed contents for a gzip-compressed catalog file.
pub fn stored_bytes(gzipped: bool, body: Vec<u8>) -> (r: Result<Vec<u8>, DataError>)
    ensures
        !gzipped ==> (r matches Ok(v) && v@ == body@),
        gzipped ==> ((r is Ok <==> gunzipped(body@) is Some) && (r matches Ok(v) ==> Some(v@)
            == gunzipped(body@))),
        r matches Err(e) ==> e is Io,
{
    if gzipped {
        match gunzip(body.as_slice()) {
            Ok(v) => Ok(v),
            Err(e) => Err(DataError::Io(e)),
        }
    } else {
        Ok(body)
    }
}

// ─── DataManager ────────────────────────────────────────────────────────────

/// Manages the local cache directory holding the files ASSIST needs.
#[derive(Debug, Clone)]
pub struct DataManager {
    data_dir: String,
}

/// Catalog file `i` counts as present when the caller reported it so.
pub open spec fn reported_present(present: Seq<bool>, i: int) -> bool {
    0 <= i < present.len() && present[i]
}

/// File names of the first `n` catalog files that are not present, in catalog order.
pub open spec fn missing_kernels(present: Seq<bool>, n: nat) -> Seq<Seq<char>>
    decreases n,
{
    if n == 0 {
        Seq::empty()
    } else {
        let prev = missing_kernels(present, (n - 1) as nat);
        if reported_present(present, n - 1) {
            prev
        } else {
            prev.push(kernel_filename(n - 1))
        }
    }
}

/// The text of an optional string slice.
pub open spec fn opt_text(o: Option<&str>) -> Option<Seq<char>> {
    match o {
        Some(s) => Some(s@),
        None => None,
    }
}

/// The default cache directory: `$ASSIST_DATA_DIR` if set, otherwise
/// `$XDG_CACHE_HOME/assist-rs`, otherwise `$HOME/.cache/assist-rs`; none
/// when not even `HOME` is set.
pub open spec fn default_dir_for(
    assist_data_dir: Option<Seq<char>>,
    xdg_cache_home: Option<Seq<char>>,
    home: Option<Seq<char>>,
) -> Option<Seq<char>> {
    match assist_data_dir {
        Some(d) => Some(d),
        None => match xdg_cache_home {
            Some(x) => Some(joined_path(x, "assist-rs"@)),
            None => match home {
                Some(h) => Some(joined_path(joined_path(h, ".cache"@), "assist-rs"@)),
                None => None,
            },
        },
    }
}

/// Picks the default data directory from the values of the environment
/// variables `ASSIST_DATA_DIR`, `XDG_CACHE_HOME` and `HOME` (`None` for an
/// unset variable).
pub fn default_data_dir(
    assist_data_dir: Option<&str>,
    xdg_cache_home: Option<&str>,
    home: Option<&str>,
) -> (r: Option<String>)
    ensures
        match default_dir_for(opt_text(assist_data_dir), opt_text(xdg_cache_home), opt_text(home)) {
            Some(d) => r matches Some(s) && s@ == d,
            None => r is None,
        },
{
    proof {
        reveal_strlit("assist-rs");
        reveal_strlit(".cache");
    }
    match assist_data_dir {
        Some(d) => Some(d.to_owned()),
        None => match xdg_cache_home {
            Some(x) => Some(join_path(x, "assist-rs")),
            None => match home {
                Some(h) => {
                    let cache = join_path(h, ".cache");
                    Some(join_path(cache.as_str(), "assist-rs"))
                },
                None => None,
            },
        },
    }
}

impl DataManager {
    /// The cache directory, as text.
    pub closed spec fn dir(&self) -> Seq<char> {
        self.data_dir@
    }

    /// Create a `DataManager` with a custom data directory.
    pub fn with_dir(dir: &str) -> (m: DataManager)
        ensures
            m.dir() == dir@,
    {
        DataManager { data_dir: dir.to_owned() }
    }

    /// The data directory path.
    pub fn data_dir(&self) -> (r: &str)
        ensures
            r@ == self.dir(),
    {
        self.data_dir.as_str()
    }

    /// Where each catalog file lives inside the data directory.
    pub fn paths(&self) -> (p: AssistDataPaths)
        ensures
            forall|i: int| 0 <= i < KERNEL_COUNT ==> #[trigger] path_for_kernel(p, i)
                == joined_path(self.dir(), kernel_filename(i)),
    {
        let d = self.data_dir.as_str();
        proof {
            reveal_strlit("de440.bsp");
            reveal_strlit("sb441-n16.bsp");
            reveal_strlit("obscodes_extended.json");
            reveal_strlit("earth_latest_high_prec.bpc");
            reveal_strlit("earth_620120_250826.bpc");
            reveal_strlit("earth_2025_250826_2125_predict.bpc");
        }
        AssistDataPaths {
            planets: join_path(d, "de440.bsp"),
            asteroids: join_path(d, "sb441-n16.bsp"),
            obscodes: join_path(d, "obscodes_extended.json"),
            eop_high_prec: join_path(d, "earth_latest_high_prec.bpc"),
            eop_historical: join_path(d, "earth_620120_250826.bpc"),
            eop_predict: join_path(d, "earth_2025_250826_2125_predict.bpc"),
        }
    }

    /// The path of one catalog file inside the data directory.
    pub fn kernel_path(&self, entry: &KernelEntry) -> (r: String)
        ensures
            r@ == joined_path(self.dir(), entry.filename@),
    {
        join_path(self.data_dir.as_str(), entry.filename)
    }

    /// Where the sidecar of a catalog file lives: `<filename>.meta.json`
    /// inside the data directory.
    pub fn sidecar_path(&self, entry: &KernelEntry) -> (r: String)
        ensures
            r@ == joined_path(self.dir(), entry.filename@ + ".meta.json"@),
    {
        let name = String::from_str(entry.filename).concat(".meta.json");
        join_path(self.data_dir.as_str(), name.as_str())
    }

    /// Return paths if all data files exist; no network access.
    ///
    /// `present[i]` reports whether catalog file `i` ([`default_kernels`])
    /// exists in the data directory; a missing report counts as absent.
    pub fn offline(&self, present: &[bool]) -> (r: Result<AssistDataPaths, DataError>)
        ensures
            missing_kernels(present@, KERNEL_COUNT as nat).len() == 0 <==> r is Ok,
            r matches Ok(p) ==> forall|i: int| 0 <= i < KERNEL_COUNT ==> #[trigger] path_for_kernel(
                p,
                i,
            ) == joined_path(self.dir(), kernel_filename(i)),
            r matches Err(e) ==> (e matches DataError::MissingFiles(files) && string_views(
                files@,
            ) == missing_kernels(present@, KERNEL_COUNT as nat)),
    {
        let kernels = default_kernels();
        let mut missing: Vec<String> = Vec::new();
        let mut i: usize = 0;
        while i < kernels.len()
            invariant
                kernels@.len() == KERNEL_COUNT,
                forall|k: int| 0 <= k < KERNEL_COUNT ==> is_catalog_entry(#[trigger] kernels@[k], k),
                i <= KERNEL_COUNT,
                string_views(missing@) == missing_kernels(present@, i as nat),
            decreases KERNEL_COUNT - i,
        {
            let here = i < present.len() && present[i];
            if !here {
                let name = kernels[i].filename.to_owned();
                missing.push(name);
                proof {
                    assert(string_views(missing@) =~= missing_kernels(present@, i as nat).push(
                        kernel_filename(i as int),
                    ));
                }
            }
            i = i + 1;
        }
        if missing.len() > 0 {
            return Err(DataError::MissingFiles(missing));
        }
        Ok(self.paths())
    }
}

/// Every catalog file has a path field in [`AssistDataPaths`] and every path
/// field belongs to a catalog file: the path of file `i` is the data
/// directory joined with the file's catalog name.
pub proof fn lemma_catalog_and_paths_agree(m: DataManager, p: AssistDataPaths, kernels: Seq<KernelEntry>)
    requires
        forall|i: int| 0 <= i < KERNEL_COUNT ==> #[trigger] path_for_kernel(p, i) == joined_path(
            m.dir(),
            kernel_filename(i),
        ),
        kernels.len() == KERNEL_COUNT,
        forall|i: int| 0 <= i < KERNEL_COUNT ==> is_catalog_entry(#[trigger] kernels[i], i),
    ensures
        forall|i: int| 0 <= i < KERNEL_COUNT ==> exists|j: int| 0 <= j < KERNEL_COUNT
            && #[trigger] path_for_kernel(p, j) == joined_path(m.dir(), (#[trigger] kernels[i]).filename@),
        p.planets@ == joined_path(m.dir(), "de440.bsp"@),
        p.asteroids@ == joined_path(m.dir(), "sb441-n16.bsp"@),
        p.obscodes@ == joined_path(m.dir(), "obscodes_extended.json"@),
        p.eop_high_prec@ == joined_path(m.dir(), "earth_latest_high_prec.bpc"@),
        p.eop_historical@ == joined_path(m.dir(), "earth_620120_250826.bpc"@),
        p.eop_predict@ == joined_path(m.dir(), "earth_2025_250826_2125_predict.bpc"@),
{
    assert forall|i: int| 0 <= i < KERNEL_COUNT implies exists|j: int| 0 <= j < KERNEL_COUNT
        && #[trigger] path_for_kernel(p, j) == joined_path(m.dir(), (#[trigger] kernels[i]).filename@) by {
        assert(path_for_kernel(p, i) == joined_path(m.dir(), kernels[i].filename@));
    }
    assert(path_for_kernel(p, 0) == p.planets@);
    assert(path_for_kernel(p, 1) == p.asteroids@);
    assert(path_for_kernel(p, 2) == p.obscodes@);
    assert(path_for_kernel(p, 3) == p.eop_high_prec@);
    assert(path_for_kernel(p, 4) == p.eop_historical@);
    assert(path_for_kernel(p, 5) == p.eop_predict@);
}

/// The offline check succeeds exactly when every catalog file is reported
/// present, and otherwise names every absent file, each once, in catalog order.
pub proof fn lemma_offline_reports_exactly_the_missing(present: Seq<bool>)
    ensures
        missing_kernels(present, KERNEL_COUNT as nat).len() == 0 <==> forall|i: int|
            0 <= i < KERNEL_COUNT ==> #[trigger] reported_present(present, i),
        forall|i: int| 0 <= i < KERNEL_COUNT && !#[trigger] reported_present(present, i)
            ==> missing_kernels(present, KERNEL_COUNT as nat).contains(kernel_filename(i)),
{
    lemma_missing_kernels(present, KERNEL_COUNT as nat);
}

proof fn lemma_missing_kernels(present: Seq<bool>, n: nat)
    ensures
        missing_kernels(present, n).len() == 0 <==> forall|i: int| 0 <= i < n ==> #[trigger] reported_present(present, i),
        forall|i: int| 0 <= i < n && !#[trigger] reported_present(present, i)
            ==> missing_kernels(present, n).contains(kernel_filename(i)),
    decreases n,
{
    if n > 0 {
        lemma_missing_kernels(present, (n - 1) as nat);
        let prev = missing_kernels(present, (n - 1) as nat);
        if !reported_present(present, n - 1) {
            assert(prev.push(kernel_filename(n - 1))[prev.len() as int] == kernel_filename(n - 1));
            assert forall|i: int| 0 <= i < n && !#[trigger] reported_present(present, i)
                implies missing_kernels(present, n).contains(kernel_filename(i)) by {
                if i < n - 1 {
                    let k = choose|k: int| 0 <= k < prev.len() && prev[k] == kernel_filename(i);
                    assert(missing_kernels(present, n)[k] == kernel_filename(i));
                }
            }
        }
    }
}

// ─── Sidecar metadata and cache freshness ──────────────────────────────────

/// Metadata recorded next to each downloaded file (`<filename>.meta.json`).
#[derive(Debug, Clone)]
pub struct FileMeta {
    pub url: String,
    /// Download time, seconds since the Unix epoch.
    pub downloaded_at: u64,
    /// `Content-Length` of the download response, when it had one.
    pub content_length: Option<u64>,
    /// `Last-Modified` of the download response, when it had one.
    pub last_modified: Option<String>,
    /// Lower-case hex MD5 of the stored (decompressed) file; empty in
    /// sidecars written before digests were recorded.
    pub md5: String,
}

/// Whether the remote copy differs from what the sidecar recorded: a
/// length or a modification stamp known on both sides and not equal.
pub open spec fn remote_differs(
    remote_length: Option<u64>,
    recorded_length: Option<u64>,
    remote_modified: Option<Seq<char>>,
    recorded_modified: Option<Seq<char>>,
) -> bool {
    (remote_length is Some && recorded_length is Some && remote_length != recorded_length)
    || (remote_modified is Some && recorded_modified is Some && remote_modified
        != recorded_modified)
}

/// A file is stale when its length is known on both sides and differs, and,
/// independently, when its modification stamp is known on both sides and
/// differs; when neither comparison can be made or both agree, it is fresh.
pub proof fn lemma_remote_differs(
    remote_length: Option<u64>,
    recorded_length: Option<u64>,
    remote_modified: Option<Seq<char>>,
    recorded_modified: Option<Seq<char>>,
)
    ensures
        (remote_modified matches Some(a) && recorded_modified matches Some(b) && a != b)
            ==> remote_differs(remote_length, recorded_length, remote_modified, recorded_modified),
        (remote_length matches Some(a) && recorded_length matches Some(b) && a != b)
            ==> remote_differs(remote_length, recorded_length, remote_modified, recorded_modified),
        (remote_length is None || recorded_length is None || remote_length == recorded_length)
            && (remote_modified is None || recorded_modified is None || remote_modified
            == recorded_modified) ==> !remote_differs(
            remote_length,
            recorded_length,
            remote_modified,
            recorded_modified,
        ),
{
}

/// The recorded `Last-Modified` stamp as text.
pub open spec fn recorded_stamp(meta: FileMeta) -> Option<Seq<char>> {
    match meta.last_modified {
        Some(s) => Some(s@),
        None => None,
    }
}

/// Compares the headers of a `HEAD` response with a sidecar: the file is
/// stale when the remote `Content-Length` or `Last-Modified` is known on
/// both sides and differs.
pub fn remote_changed(
    meta: &FileMeta,
    remote_length: Option<u64>,
    remote_modified: Option<&str>,
) -> (r: bool)
    ensures
        r == remote_differs(
            remote_length,
            meta.content_length,
            match remote_modified {
                Some(m) => Some(m@),
                None => None,
            },
            recorded_stamp(*meta),
        ),
        (remote_length matches Some(a) && meta.content_length matches Some(b) && a != b) ==> r,
        (remote_modified matches Some(a) && meta.last_modified matches Some(b) && a@ != b@) ==> r,
        r ==> ((remote_length matches Some(a) && meta.content_length matches Some(b) && a != b)
            || (remote_modified matches Some(a) && meta.last_modified matches Some(b) && a@
            != b@)),
{
    if let (Some(remote), Some(local)) = (remote_length, meta.content_length) {
        if remote != local {
            return true;
        }
    }
    match (remote_modified, &meta.last_modified) {
        (Some(remote), Some(local)) => !text_eq(remote, local.as_str()),
        _ => false,
    }
}

/// ASCII decimal digit.
pub open spec fn is_digit_byte(b: u8) -> bool {
    48 <= b && b <= 57
}

/// The value of a string of ASCII decimal digits.
pub open spec fn digits_value(d: Seq<u8>) -> nat
    decreases d.len(),
{
    if d.len() == 0 {
        0
    } else {
        digits_value(d.drop_last()) * 10 + (d.last() - 48) as nat
    }
}

/// The digits of an unsigned decimal literal: an optional leading `+` dropped.
pub open spec fn unsigned_digits(b: Seq<u8>) -> Seq<u8> {
    if b.len() > 0 && b[0] == 43 {
        b.drop_first()
    } else {
        b
    }
}

/// What `u64::from_str` accepts: an optional `+`, then one or more ASCII
/// digits whose value fits in 64 bits.
pub open spec fn parses_as_u64(b: Seq<u8>) -> Option<u64> {
    let d = unsigned_digits(b);
    if d.len() > 0 && (forall|i: int| 0 <= i < d.len() ==> #[trigger] is_digit_byte(d[i]))
        && digits_value(d) <= u64::MAX {
        Some(digits_value(d) as u64)
    } else {
        None
    }
}

proof fn lemma_digits_value_monotone(d: Seq<u8>, n: int)
    requires
        0 <= n <= d.len(),
        forall|i: int| 0 <= i < d.len() ==> #[trigger] is_digit_byte(d[i]),
    ensures
        digits_value(d.subrange(0, n)) <= digits_value(d),
    decreases d.len() - n,
{
    if n < d.len() {
        lemma_digits_value_monotone(d, n + 1);
        assert(d.subrange(0, n + 1).drop_last() =~= d.subrange(0, n));
    } else {
        assert(d.subrange(0, n) =~= d);
    }
}

/// Parses a header value as `str::parse::<u64>` does.
pub fn parse_u64(text: &str) -> (r: Option<u64>)
    ensures
        r == parses_as_u64(text.spec_bytes()),
{
    let b = text.as_bytes();
    let ghost d = unsigned_digits(b@);
    let start: usize = if b.len() > 0 && b[0] == 43 { 1 } else { 0 };
    proof {
        assert(d =~= b@.subrange(start as int, b@.len() as int));
    }
    if start >= b.len() {
        return None;
    }
    let mut acc: u64 = 0;
    let mut i: usize = start;
    while i < b.len()
        invariant
            b@ == text.spec_bytes(),
            d == unsigned_digits(b@),
            start <= i <= b@.len(),
            d =~= b@.subrange(start as int, b@.len() as int),
            forall|k: int| 0 <= k < i - start ==> #[trigger] is_digit_byte(d[k]),
            acc as nat == digits_value(d.subrange(0, i - start)),
        decreases b@.len() - i,
    {
        let c = b[i];
        if c < 48 || c > 57 {
            proof {
                assert(!is_digit_byte(d[i - start]));
            }
            return None;
        }
        proof {
            let pre = d.subrange(0, i - start);
            let post = d.subrange(0, i - start + 1);
            assert(post.drop_last() =~= pre);
            assert(post.last() == c);
        }
        match acc.checked_mul(10) {
            Some(t) => match t.checked_add((c - 48) as u64) {
                Some(n) => {
                    acc = n;
                },
                None => {
                    proof {
                        assert(digits_value(d.subrange(0, i - start + 1)) > u64::MAX);
                        if forall|k: int| 0 <= k < d.len() ==> #[trigger] is_digit_byte(d[k]) {
                            lemma_digits_value_monotone(d, i - start + 1);
                        }
                    }
                    return None;
                },
            },
            None => {
                proof {
                    assert(digits_value(d.subrange(0, i - start + 1)) > u64::MAX) by (nonlinear_arith)
                        requires
                            acc * 10 > u64::MAX,
                            digits_value(d.subrange(0, i - start + 1)) == acc * 10 + (c - 48) as nat,
                            c >= 48,
                    ;
                    if forall|k: int| 0 <= k < d.len() ==> #[trigger] is_digit_byte(d[k]) {
                        lemma_digits_value_monotone(d, i - start + 1);
                    }
                }
                return None;
            },
        }
        i = i + 1;
    }
    proof {
        assert(d.subrange(0, d.len() as int) =~= d);
    }
    Some(acc)
}

// ─── Cache refresh protocol ─────────────────────────────────────────────────

/// What was learned about one cached file at the latest step.
#[derive(Debug, Clone, Copy, PartialEq, Eq, Structural)]
pub enum CacheEvent {
    /// Whether the file exists in the cache.
    FileExists(bool),
    /// Whether a readable sidecar was found next to it.
    SidecarFound(bool),
    /// Whether the file's MD5 agrees with the sidecar.
    Md5Agrees(bool),
    /// Whether the remote copy differs from the sidecar.
    RemoteChanged(bool),
}

/// Why a file is (re-)downloaded.
#[derive(Debug, Clone, Copy, PartialEq, Eq, Structural)]
pub enum DownloadReason {
    Missing,
    Md5Mismatch,
    RemoteChanged,
}

/// What to do next for one cached file.
#[derive(Debug, Clone, Copy, PartialEq, Eq, Structural)]
pub enum CacheAction {
    /// Read the sidecar and report `SidecarFound`.
    ReadSidecar,
    /// Hash the file and report `Md5Agrees`.
    CompareMd5,
    /// Ask the remote for its headers and report `RemoteChanged`.
    CheckRemote,
    /// Download the file (and write a fresh sidecar); the file is then done.
    Download(DownloadReason),
    /// Keep the cached copy; the file is done.
    Keep,
}

/// The refresh decision for a file after an event.
pub open spec fn cache_step(is_static: bool, event: CacheEvent) -> CacheAction {
    match event {
        CacheEvent::FileExists(false) => CacheAction::Download(DownloadReason::Missing),
        CacheEvent::FileExists(true) => CacheAction::ReadSidecar,
        CacheEvent::SidecarFound(false) => CacheAction::Keep,
        CacheEvent::SidecarFound(true) => CacheAction::CompareMd5,
        CacheEvent::Md5Agrees(false) => CacheAction::Download(DownloadReason::Md5Mismatch),
        CacheEvent::Md5Agrees(true) => if is_static {
            CacheAction::Keep
        } else {
            CacheAction::CheckRemote
        },
        CacheEvent::RemoteChanged(true) => CacheAction::Download(DownloadReason::RemoteChanged),
        CacheEvent::RemoteChanged(false) => CacheAction::Keep,
    }
}

/// Decides the next step in keeping one cached file fresh.
///
/// For each file: a missing file is downloaded; a file without a sidecar
/// is kept (nothing to validate it against); a file whose MD5 disagrees
/// with its sidecar is re-downloaded; a static file that passes the MD5
/// check is kept; a changing file that passes it is checked against the
/// remote and re-downloaded when the remote differs. Failures while hashing
/// or contacting the remote are the caller's to propagate.
pub fn next_cache_action(entry: &KernelEntry, event: CacheEvent) -> (a: CacheAction)
    ensures
        a == cache_step(entry.is_static, event),
{
    match event {
        CacheEvent::FileExists(false) => CacheAction::Download(DownloadReason::Missing),
        CacheEvent::FileExists(true) => CacheAction::ReadSidecar,
        CacheEvent::SidecarFound(false) => CacheAction::Keep,
        CacheEvent::SidecarFound(true) => CacheAction::CompareMd5,
        CacheEvent::Md5Agrees(false) => CacheAction::Download(DownloadReason::Md5Mismatch),
        CacheEvent::Md5Agrees(true) => if entry.is_static {
            CacheAction::Keep
        } else {
            CacheAction::CheckRemote
        },
        CacheEvent::RemoteChanged(true) => CacheAction::Download(DownloadReason::RemoteChanged),
        CacheEvent::RemoteChanged(false) => CacheAction::Keep,
    }
}

/// The action that ends the refresh of one file, given the answers every
/// observation would get.
pub open spec fn cache_outcome(
    is_static: bool,
    file_exists: bool,
    sidecar: bool,
    md5_agrees: bool,
    remote_changed: bool,
) -> CacheAction {
    let a1 = cache_step(is_static, CacheEvent::FileExists(file_exists));
    if a1 != CacheAction::ReadSidecar {
        a1
    } else {
        let a2 = cache_step(is_static, CacheEvent::SidecarFound(sidecar));
        if a2 != CacheAction::CompareMd5 {
            a2
        } else {
            let a3 = cache_step(is_static, CacheEvent::Md5Agrees(md5_agrees));
            if a3 != CacheAction::CheckRemote {
                a3
            } else {
                cache_step(is_static, CacheEvent::RemoteChanged(remote_changed))
            }
        }
    }
}

/// The refresh of a file always ends in `Download` or `Keep` after at most
/// four observations; it downloads exactly when the file is missing, when
/// its MD5 disagrees with its sidecar, or when a changing file's remote
/// differs; a static file is never checked against the remote, and a file
/// without a sidecar is never re-downloaded.
pub proof fn lemma_cache_refresh_protocol(
    is_static: bool,
    file_exists: bool,
    sidecar: bool,
    md5_agrees: bool,
    remote_changed: bool,
)
    ensures
        cache_outcome(is_static, file_exists, sidecar, md5_agrees, remote_changed) is Download
            || cache_outcome(is_static, file_exists, sidecar, md5_agrees, remote_changed) is Keep,
        (cache_outcome(is_static, file_exists, sidecar, md5_agrees, remote_changed) is Download) <==> (
        !file_exists || (sidecar && !md5_agrees) || (sidecar && md5_agrees && !is_static
            && remote_changed)),
        (cache_outcome(is_static, file_exists, sidecar, md5_agrees, remote_changed)
            == CacheAction::Download(DownloadReason::Missing)) <==> !file_exists,
        (file_exists && !sidecar) ==> (cache_outcome(is_static, file_exists, sidecar, md5_agrees, remote_changed)
            == CacheAction::Keep),
        (file_exists && sidecar && md5_agrees && is_static) ==> (cache_outcome(
            is_static,
            file_exists,
            sidecar,
            md5_agrees,
            remote_changed,
        ) == CacheAction::Keep),
        cache_step(true, CacheEvent::Md5Agrees(true)) != CacheAction::CheckRemote,
{
    let out = cache_outcome(is_static, file_exists, sidecar, md5_agrees, remote_changed);
    if !file_exists {
        assert(out is Download);
    } else if !sidecar {
        assert(out == CacheAction::Keep);
    } else if !md5_agrees {
        assert(out is Download);
    } else if is_static {
        assert(out == CacheAction::Keep);
    } else if remote_changed {
        assert(out is Download);
    } else {
        assert(out == CacheAction::Keep);
    }
}

/// `ASSIST_DATA_DIR`, when set, is the data directory whatever else is set;
/// otherwise `XDG_CACHE_HOME` decides, with `assist-rs` inside it; only when
/// neither is set does `HOME` decide, and without any of them there is no
/// default.
pub proof fn lemma_default_dir_precedence(
    assist_data_dir: Option<Seq<char>>,
    xdg_cache_home: Option<Seq<char>>,
    home: Option<Seq<char>>,
)
    ensures
        assist_data_dir matches Some(d) ==> default_dir_for(assist_data_dir, xdg_cache_home, home)
            == Some(d),
        assist_data_dir is None ==> (xdg_cache_home matches Some(x) ==> default_dir_for(
            assist_data_dir,
            xdg_cache_home,
            home,
        ) == Some(joined_path(x, "assist-rs"@))),
        assist_data_dir is None && xdg_cache_home is None ==> (home matches Some(h)
            ==> default_dir_for(assist_data_dir, xdg_cache_home, home) == Some(
            joined_path(joined_path(h, ".cache"@), "assist-rs"@),
        )),
        default_dir_for(assist_data_dir, xdg_cache_home, home) is None <==> (assist_data_dir is None
            && xdg_cache_home is None && home is None),
{
}

/// The bytes of a text made of ASCII characters, one byte per character.
pub open spec fn ascii_bytes(s: Seq<char>) -> Seq<u8> {
    s.map_values(|c: char| c as u8)
}

proof fn lemma_decimal_digits(n: nat)
    ensures
        decimal(n).len() >= 1,
        forall|i: int| 0 <= i < decimal(n).len() ==> '0' <= #[trigger] decimal(n)[i] <= '9',
        digits_value(ascii_bytes(decimal(n))) == n,
    decreases n,
{
    if n < 10 {
        let b = ascii_bytes(decimal(n));
        assert(decimal(n) == seq![digit_char(n)]);
        assert(b.len() == 1);
        assert(b.drop_last() =~= Seq::<u8>::empty());
        assert(digit_char(n) as u8 == 48 + n);
        assert(b.last() == digit_char(n) as u8);
        assert(digits_value(b.drop_last()) == 0);
        assert(digits_value(b) == digits_value(b.drop_last()) * 10 + (b.last() - 48) as nat);
    } else {
        lemma_decimal_digits(n / 10);
        let d = decimal(n / 10);
        let c = digit_char(n % 10);
        assert(decimal(n) == d + seq![c]);
        assert(c as u8 == 48 + n % 10);
        let bn = ascii_bytes(decimal(n));
        assert(bn.drop_last() =~= ascii_bytes(d));
        assert(bn.len() == d.len() + 1);
        assert(bn.last() == c as u8);
        assert(digits_value(bn) == digits_value(bn.drop_last()) * 10 + (bn.last() - 48) as nat);
        assert(digits_value(bn) == (n / 10) * 10 + n % 10);
        assert forall|i: int| 0 <= i < decimal(n).len() implies '0' <= #[trigger] decimal(n)[i] <= '9' by {
            if i < d.len() {
                assert(decimal(n)[i] == d[i]);
            }
        }
    }
}

/// Header values parse as the numbers they spell: the decimal text of any
/// `u64` (as std writes it, without a sign) parses back to that number.
pub proof fn lemma_parse_u64_reads_decimal(n: u64)
    ensures
        parses_as_u64(vstd::utf8::encode_utf8(decimal(n as nat))) == Some(n),
{
    let t = decimal(n as nat);
    lemma_decimal_digits(n as nat);
    assert(vstd::utf8::is_ascii_chars(t)) by {
        assert forall|i: int| 0 <= i < t.len() implies '\0' <= #[trigger] t[i] <= '\u{7f}' by {
            assert('0' <= t[i] <= '9');
        }
    }
    vstd::utf8::is_ascii_chars_encode_utf8(t);
    let b = vstd::utf8::encode_utf8(t);
    assert(b =~= ascii_bytes(t));
    assert(b[0] != 43) by {
        assert('0' <= t[0] <= '9');
    }
    assert(unsigned_digits(b) == b);
    assert forall|i: int| 0 <= i < b.len() implies #[trigger] is_digit_byte(b[i]) by {
        assert('0' <= t[i] <= '9');
        assert(b[i] == t[i] as u8);
    }
}

} // verus!

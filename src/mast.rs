use vstd::prelude::*;
use vstd::utf8::encode_utf8;

use crate::apod::opt_view;

verus! {

/// A cone-search request to the archive. `P` carries the search centre and
/// radius, which the library only forwards.
#[derive(Clone, Debug)]
pub struct MastRequest<P> {
    pub service: String,
    pub params: P,
    pub format: String,
    pub pagesize: usize,
    pub page: usize,
    pub removenullcolumns: bool,
    pub timeout: u32,
}

/// What a [`MastRequest`] holds, as mathematical values.
pub ghost struct MastRequestView<P> {
    pub service: Seq<char>,
    pub params: P,
    pub format: Seq<char>,
    pub pagesize: nat,
    pub page: nat,
    pub removenullcolumns: bool,
    pub timeout: nat,
}

impl<P> View for MastRequest<P> {
    type V = MastRequestView<P>;

    open spec fn view(&self) -> MastRequestView<P> {
        MastRequestView {
            service: self.service@,
            params: self.params,
            format: self.format@,
            pagesize: self.pagesize as nat,
            page: self.page as nat,
            removenullcolumns: self.removenullcolumns,
            timeout: self.timeout as nat,
        }
    }
}

/// The cone search for page `page` around `params`: the cone-search service,
/// JSON output, 25 rows a page, empty columns left out, a 30 second timeout.
pub open spec fn cone_request<P>(params: P, page: nat) -> MastRequestView<P> {
    MastRequestView {
        service: "Mast.Caom.Cone"@,
        params,
        format: "json"@,
        pagesize: 25,
        page,
        removenullcolumns: true,
        timeout: 30,
    }
}

impl<P> MastRequest<P> {
    /// The cone-search request for one page of results around `params`.
    pub fn new(params: P, page: usize) -> (r: Self)
        ensures
            r@ == cone_request(params, page as nat),
    {
        MastRequest {
            service: String::from_str("Mast.Caom.Cone"),
            params,
            format: String::from_str("json"),
            pagesize: 25,
            page,
            removenullcolumns: true,
            timeout: 30,
        }
    }
}

/// Whether a byte is left as it is by percent-encoding: ASCII letters and
/// digits, `-`, `.`, `_` and `~`.
pub open spec fn is_unreserved(b: u8) -> bool {
    (48 <= b <= 57) || (65 <= b <= 90) || (97 <= b <= 122) || b == 45 || b == 46 || b == 95
        || b == 126
}

/// The ASCII byte of an upper-case hexadecimal digit `d < 16`.
pub open spec fn hex_digit(d: int) -> u8 {
    if d < 10 {
        (48 + d) as u8
    } else {
        (55 + d) as u8
    }
}

/// The bytes of the percent-encoding of `bytes`: each unreserved byte is kept,
/// each other byte becomes `%` and two upper-case hexadecimal digits.
pub open spec fn percent_encoded(bytes: Seq<u8>) -> Seq<u8>
    decreases bytes.len(),
{
    if bytes.len() == 0 {
        Seq::empty()
    } else {
        let b = bytes.last();
        percent_encoded(bytes.drop_last()) + if is_unreserved(b) {
            seq![b]
        } else {
            seq![37u8, hex_digit(b as int / 16), hex_digit(b as int % 16)]
        }
    }
}

/// Relies on urlencoding::encode, which percent-encodes every UTF-8 byte of
/// its argument except ASCII letters, digits, `-`, `.`, `_` and `~`.
#[verifier::external_body]
fn percent_encode(s: &str) -> (r: String)
    ensures
        encode_utf8(r@) == percent_encoded(encode_utf8(s@)),
{
    urlencoding::encode(s).into_owned()
}

/// The percent-encoding of a rendered request, as one form value.
pub fn to_urlencoded(request_json: &str) -> (r: String)
    ensures
        encode_utf8(r@) == percent_encoded(encode_utf8(request_json@)),
{
    percent_encode(request_json)
}

/// The form body `request=<percent-encoded JSON>` that the archive takes.
pub open spec fn request_body_bytes(request_json: Seq<char>) -> Seq<u8> {
    encode_utf8("request="@) + percent_encoded(encode_utf8(request_json))
}

/// Encoding two strings one after the other gives the bytes of each, in turn.
pub proof fn lemma_encode_utf8_append(a: Seq<char>, b: Seq<char>)
    ensures
        encode_utf8(a + b) == encode_utf8(a) + encode_utf8(b),
    decreases a.len(),
{
    if a.len() == 0 {
        assert(a + b =~= b);
        assert(encode_utf8(a) + encode_utf8(b) =~= encode_utf8(b));
    } else {
        lemma_encode_utf8_append(a.drop_first(), b);
        assert((a + b).drop_first() =~= a.drop_first() + b);
        assert((a + b)[0] == a[0]);
        assert(encode_utf8(a + b) =~= encode_utf8(a) + encode_utf8(b));
    }
}

/// The HTTP body that carries a rendered request to the archive.
pub fn request_body(request_json: &str) -> (r: String)
    ensures
        encode_utf8(r@) == request_body_bytes(request_json@),
{
    let encoded = to_urlencoded(request_json);
    let mut body = String::from_str("request=");
    body.append(encoded.as_str());
    proof {
        lemma_encode_utf8_append("request="@, encoded@);
    }
    body
}

/// One record of an archive answer. Only its download address is read.
#[derive(Clone, Debug)]
pub struct MastResponseEntry {
    pub data_url: Option<String>,
}

/// The paging summary of an archive answer.
#[derive(Clone, Copy, Debug, PartialEq, Eq, Structural)]
pub struct MastResponsePaging {
    pub page: usize,
    pub page_size: usize,
    pub pages_filtered: usize,
    pub rows: usize,
    pub rows_filtered: usize,
    pub rows_total: usize,
}

/// An archive answer: its status, message, records and paging summary.
#[derive(Clone, Debug)]
pub struct MastResponse {
    pub status: String,
    pub msg: String,
    pub data: Vec<MastResponseEntry>,
    pub paging: MastResponsePaging,
}

/// Information used to display the FITS files available for the picture.
#[derive(Clone, Debug)]
pub struct EarendelFits {
    /// The addresses of the FITS files of the current page.
    pub files: Vec<String>,
    /// The current page number.
    pub page: usize,
    /// The total number of records the archive holds for the search.
    pub total_hits: usize,
}

/// Whether `pat` occurs in `s` as a contiguous run.
pub open spec fn has_substring(s: Seq<char>, pat: Seq<char>) -> bool {
    exists|i: int| 0 <= i && i + pat.len() <= s.len() && #[trigger] s.subrange(i, i + pat.len()) == pat
}

/// Whether a download address marks a FITS file: it holds `fits`.
pub open spec fn is_fits_url(url: Seq<char>) -> bool {
    has_substring(url, "fits"@)
}

/// The download addresses of a sequence of records, in order.
pub open spec fn entry_urls(data: Seq<MastResponseEntry>) -> Seq<Option<Seq<char>>> {
    data.map_values(|e: MastResponseEntry| opt_view(e.data_url))
}

/// The views of a sequence of strings.
pub open spec fn string_views(v: Seq<String>) -> Seq<Seq<char>> {
    v.map_values(|s: String| s@)
}

/// The addresses that are present and mark FITS files, in their order.
pub open spec fn fits_urls(urls: Seq<Option<Seq<char>>>) -> Seq<Seq<char>>
    decreases urls.len(),
{
    if urls.len() == 0 {
        Seq::empty()
    } else {
        let rest = fits_urls(urls.drop_last());
        match urls.last() {
            Some(u) => if is_fits_url(u) {
                rest.push(u)
            } else {
                rest
            },
            None => rest,
        }
    }
}

/// Relies on str::contains with a `&str` pattern: whether the pattern occurs
/// in the string.
#[verifier::external_body]
fn str_contains(s: &str, pat: &str) -> (r: bool)
    ensures
        r == has_substring(s@, pat@),
{
    s.contains(pat)
}

/// The FITS download addresses among the records, in their order; records
/// without an address, or whose address does not hold `fits`, are left out.
pub fn fits_files(data: &Vec<MastResponseEntry>) -> (r: Vec<String>)
    ensures
        string_views(r@) == fits_urls(entry_urls(data@)),
{
    let ghost urls = entry_urls(data@);
    let mut files: Vec<String> = Vec::new();
    let n = data.len();
    let mut i: usize = 0;
    while i < n
        invariant
            n == data@.len(),
            urls == entry_urls(data@),
            i <= n,
            string_views(files@) == fits_urls(urls.subrange(0, i as int)),
        decreases n - i,
    {
        let ghost before = files@;
        assert(urls.subrange(0, i + 1).drop_last() =~= urls.subrange(0, i as int));
        assert(urls.subrange(0, i + 1).last() == opt_view(data@[i as int].data_url));
        match &data[i].data_url {
            Some(u) => {
                if str_contains(u.as_str(), "fits") {
                    files.push(u.clone());
                    assert(string_views(files@) =~= string_views(before).push(u@));
                }
            },
            None => {},
        }
        i = i + 1;
    }
    assert(urls.subrange(0, n as int) =~= urls);
    files
}

/// The page of FITS files that an archive answer gives for the page asked for.
pub fn fits_page(response: &MastResponse, page: usize) -> (r: EarendelFits)
    ensures
        string_views(r.files@) == fits_urls(entry_urls(response.data@)),
        r.page == page,
        r.total_hits == response.paging.rows_total,
{
    EarendelFits { files: fits_files(&response.data), page, total_hits: response.paging.rows_total }
}

/// Building a request is deterministic: two requests built from the same
/// search centre and page are equal, and so are the bodies rendered from the
/// same request text.
pub proof fn lemma_request_deterministic<P>(
    a: MastRequest<P>,
    b: MastRequest<P>,
    params: P,
    page: nat,
    json_a: Seq<char>,
    json_b: Seq<char>,
)
    requires
        a@ == cone_request(params, page),
        b@ == cone_request(params, page),
        json_a == json_b,
    ensures
        a@ == b@,
        request_body_bytes(json_a) == request_body_bytes(json_b),
{
}

/// Requests for two different pages around the same centre are distinct and
/// differ in the page alone.
pub proof fn lemma_pages_differ_only_in_page<P>(params: P, page1: nat, page2: nat)
    requires
        page1 != page2,
    ensures
        cone_request(params, page1) != cone_request(params, page2),
        cone_request(params, page1) == (MastRequestView { page: page1, ..cone_request(params, page2) }),
{
}

/// The filter keeps exactly the present addresses that hold `fits`: each kept
/// address is one of the records' and holds `fits`, and each record whose
/// address holds `fits` is kept.
pub proof fn lemma_fits_urls_exact(urls: Seq<Option<Seq<char>>>)
    ensures
        forall|j: int|
            0 <= j < fits_urls(urls).len() ==> is_fits_url(#[trigger] fits_urls(urls)[j])
                && urls.contains(Some(fits_urls(urls)[j])),
        forall|i: int|
            0 <= i < urls.len() && (#[trigger] urls[i]) is Some && is_fits_url(urls[i]->Some_0)
                ==> fits_urls(urls).contains(urls[i]->Some_0),
    decreases urls.len(),
{
    if urls.len() > 0 {
        let init = urls.drop_last();
        lemma_fits_urls_exact(init);
        let out = fits_urls(urls);
        let rest = fits_urls(init);
        assert forall|j: int| 0 <= j < out.len() implies is_fits_url(#[trigger] out[j])
            && urls.contains(Some(out[j])) by {
            if j < rest.len() {
                assert(out[j] == rest[j]);
                let k = choose|k: int| 0 <= k < init.len() && init[k] == Some(rest[j]);
                assert(urls[k] == init[k]);
            } else {
                assert(urls[urls.len() - 1] == Some(out[j]));
            }
        }
        assert forall|i: int|
            0 <= i < urls.len() && (#[trigger] urls[i]) is Some && is_fits_url(urls[i]->Some_0)
                implies out.contains(urls[i]->Some_0) by {
            if i < init.len() {
                assert(init[i] == urls[i]);
                let k = choose|k: int| 0 <= k < rest.len() && rest[k] == urls[i]->Some_0;
                assert(out[k] == rest[k]);
            } else {
                assert(out[out.len() - 1] == urls[i]->Some_0);
            }
        }
    }
}

} // verus!

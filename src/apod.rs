use vstd::prelude::*;

use crate::error::EarendelError;

verus! {

/// The view of an optional string.
pub open spec fn opt_view(o: Option<String>) -> Option<Seq<char>> {
    match o {
        Some(s) => Some(s@),
        None => None,
    }
}

/// Information used to display the picture of the day.
#[derive(Clone, Debug)]
pub struct EarendelApod {
    /// The title of the picture.
    pub title: String,
    /// The bytes of the image.
    pub img: Vec<u8>,
    /// The copyright line, where there is one.
    pub copyright: Option<String>,
}

/// What an [`EarendelApod`] holds, as mathematical values.
pub ghost struct ApodView {
    pub title: Seq<char>,
    pub img: Seq<u8>,
    pub copyright: Option<Seq<char>>,
}

impl View for EarendelApod {
    type V = ApodView;

    open spec fn view(&self) -> ApodView {
        ApodView { title: self.title@, img: self.img@, copyright: opt_view(self.copyright) }
    }
}

fn copy_opt_string(o: &Option<String>) -> (r: Option<String>)
    ensures
        opt_view(r) == opt_view(*o),
{
    match o {
        Some(s) => Some(s.clone()),
        None => None,
    }
}

impl EarendelApod {
    /// A copy of this record with the same contents.
    pub fn duplicate(&self) -> (r: EarendelApod)
        ensures
            r@ == self@,
    {
        let mut img: Vec<u8> = Vec::new();
        let n = self.img.len();
        let mut i: usize = 0;
        while i < n
            invariant
                n == self.img@.len(),
                i <= n,
                img@ == self.img@.subrange(0, i as int),
            decreases n - i,
        {
            img.push(self.img[i]);
            i = i + 1;
            assert(img@ =~= self.img@.subrange(0, i as int));
        }
        assert(img@ =~= self.img@);
        EarendelApod { title: self.title.clone(), img, copyright: copy_opt_string(&self.copyright) }
    }
}

/// The picture-of-the-day document as the service sends it.
#[derive(Clone, Debug)]
pub struct Apod {
    pub id: Option<u32>,
    pub copyright: Option<String>,
    pub date: String,
    pub explanation: Option<String>,
    pub hdurl: Option<String>,
    pub media_type: String,
    pub service_version: Option<String>,
    pub title: String,
    pub url: Option<String>,
}

/// The address of the picture-of-the-day service.
pub open spec fn apod_endpoint() -> Seq<char> {
    "https://api.nasa.gov/planetary/apod"@
}

/// The object looked up in the archive when the title names none that can be used.
pub open spec fn fallback_object_name() -> Seq<char> {
    "NGC 4632"@
}

/// The address that asks the picture-of-the-day service with the given key.
pub fn apod_request_url(api_key: &str) -> (r: String)
    ensures
        r@ == apod_endpoint() + "?api_key="@ + api_key@,
{
    let mut url = String::from_str("https://api.nasa.gov/planetary/apod");
    url.append("?api_key=");
    url.append(api_key);
    url
}

/// The image address of a picture-of-the-day document; a document without
/// one is a data-shape failure.
pub fn image_url(apod: &Apod) -> (r: Result<String, EarendelError>)
    ensures
        match apod.url {
            Some(u) => r is Ok && r->Ok_0@ == u@,
            None => r == Err::<String, EarendelError>(EarendelError::DataShape),
        },
{
    match &apod.url {
        Some(u) => Ok(u.clone()),
        None => Err(EarendelError::DataShape),
    }
}

/// The record shown for a document and the image bytes fetched from its address.
pub fn into_earendel_apod(apod: Apod, img: Vec<u8>) -> (r: EarendelApod)
    ensures
        r@ == (ApodView { title: apod.title@, img: img@, copyright: opt_view(apod.copyright) }),
{
    EarendelApod { title: apod.title, img, copyright: apod.copyright }
}

/// The object to look up in the archive for a picture. Titles are not parsed
/// into catalogue names: the same fallback object is used for every picture.
pub fn target_object_name(apod: &EarendelApod) -> (r: String)
    ensures
        r@ == fallback_object_name(),
{
    String::from_str("NGC 4632")
}

} // verus!

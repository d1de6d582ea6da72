//! Static assets: which files are served and as what, what a stylesheet's
//! compilation gives, and how a failure is answered.

use vstd::prelude::*;
use vstd::string::{StrSliceExecFns, StringExecFns};
use vstd::utf8::{decode_utf8, encode_utf8, valid_utf8};

use crate::responses::{is_reply, Reply};
use crate::util::text::{opt_str, string_from_utf8};

verus! {

/// What a file is served as, by its extension.
#[derive(Debug, Clone, Copy, PartialEq, Eq, Structural)]
pub enum AssetKind {
    /// A `.scss` or `.sass` stylesheet, compiled to CSS.
    Scss,
    /// A `.js` script, served as it is.
    Js,
    /// A `.png` image, served as it is.
    Png,
}

/// The kind of a file with extension `extension`; `None` for a file that
/// is not served.
pub open spec fn spec_asset_kind(extension: Option<Seq<char>>) -> Option<AssetKind> {
    match extension {
        Some(e) => if e == "scss"@ || e == "sass"@ {
            Some(AssetKind::Scss)
        } else if e == "js"@ {
            Some(AssetKind::Js)
        } else if e == "png"@ {
            Some(AssetKind::Png)
        } else {
            None
        },
        None => None,
    }
}

/// The kind of a file with extension `extension` (see [`spec_asset_kind`]).
pub fn asset_kind(extension: Option<&str>) -> (r: Option<AssetKind>)
    ensures
        r == spec_asset_kind(opt_str(extension)),
{
    match extension {
        Some(e) => {
            let e = String::from_str(e);
            if e == String::from_str("scss") || e == String::from_str("sass") {
                Some(AssetKind::Scss)
            } else if e == String::from_str("js") {
                Some(AssetKind::Js)
            } else if e == String::from_str("png") {
                Some(AssetKind::Png)
            } else {
                None
            }
        },
        None => None,
    }
}

/// A file ready to be served.
#[derive(Debug)]
pub enum Asset {
    Css(Vec<u8>),
    Png(Vec<u8>),
    Js(Vec<u8>),
}

impl Asset {
    /// The `Content-Type` an asset is served with.
    pub open spec fn spec_content_type(&self) -> Seq<char> {
        match self {
            Asset::Css(_) => "text/css; charset=utf-8"@,
            Asset::Js(_) => "text/javascript; charset=utf-8"@,
            Asset::Png(_) => "image/png"@,
        }
    }

    /// The bytes served.
    pub open spec fn spec_bytes(&self) -> Seq<u8> {
        match self {
            Asset::Css(b) => b@,
            Asset::Js(b) => b@,
            Asset::Png(b) => b@,
        }
    }

    /// The `Content-Type` the asset is served with.
    pub fn content_type(&self) -> (r: &'static str)
        ensures
            r@ == self.spec_content_type(),
    {
        match self {
            Asset::Css(_) => "text/css; charset=utf-8",
            Asset::Js(_) => "text/javascript; charset=utf-8",
            Asset::Png(_) => "image/png",
        }
    }

    /// The bytes served.
    pub fn bytes(&self) -> (r: &[u8])
        ensures
            r@ == self.spec_bytes(),
    {
        match self {
            Asset::Css(b) => b.as_slice(),
            Asset::Js(b) => b.as_slice(),
            Asset::Png(b) => b.as_slice(),
        }
    }
}

impl Clone for Asset {
    fn clone(&self) -> (r: Asset)
        ensures
            r.spec_bytes() == self.spec_bytes(),
            r.spec_content_type() == self.spec_content_type(),
    {
        match self {
            Asset::Css(b) => Asset::Css(b.clone()),
            Asset::Png(b) => Asset::Png(b.clone()),
            Asset::Js(b) => Asset::Js(b.clone()),
        }
    }
}

/// Why an asset could not be served.
#[derive(Debug)]
pub enum AssetError {
    /// No such file, or a directory.
    NotFound,
    /// A file of a kind that is not served.
    UnsupportedAsset,
    /// Reading the file failed otherwise; what the system reported.
    Io(String),
    /// A stylesheet that is not UTF-8.
    Utf8,
    /// The stylesheet did not compile; what the compiler reported.
    Grass(String),
}

impl AssetError {
    /// The error a failed file operation becomes: a missing file is not
    /// found, anything else an input/output failure.
    pub fn from_io(is_not_found: bool, message: String) -> (r: AssetError)
        ensures
            is_not_found ==> r is NotFound,
            !is_not_found ==> r == AssetError::Io(message),
    {
        if is_not_found {
            AssetError::NotFound
        } else {
            AssetError::Io(message)
        }
    }

    /// The HTTP status the error is answered with.
    pub open spec fn spec_status(&self) -> u16 {
        match self {
            AssetError::NotFound => 404,
            AssetError::UnsupportedAsset => 415,
            _ => 500,
        }
    }

    /// The text the error is answered with.
    pub open spec fn spec_message(&self) -> Seq<char> {
        match self {
            AssetError::NotFound => "Asset not found."@,
            AssetError::UnsupportedAsset => "Asset type not supported."@,
            _ => "Internal server error."@,
        }
    }

    /// The answer: 404 for a missing file, 415 for a kind that is not
    /// served, 500 otherwise, with the error's text.
    pub fn reply(&self) -> (r: Reply)
        ensures
            is_reply(r, self.spec_status(), None, self.spec_message()),
    {
        match self {
            AssetError::NotFound => Reply::text(404, "Asset not found."),
            AssetError::UnsupportedAsset => Reply::text(415, "Asset type not supported."),
            _ => Reply::text(500, "Internal server error."),
        }
    }
}

/// A path is served only when it exists and is not a directory.
pub fn check_path(path_exists: bool, is_dir: bool) -> (r: Result<(), AssetError>)
    ensures
        r is Ok <==> (path_exists && !is_dir),
        r matches Err(e) ==> e is NotFound,
{
    if !path_exists || is_dir {
        Err(AssetError::NotFound)
    } else {
        Ok(())
    }
}

/// The asset a stylesheet compilation gives: the CSS, or the compiler's error.
pub fn css_asset(compiled: Result<String, String>) -> (r: Result<Asset, AssetError>)
    ensures
        match compiled {
            Ok(css) => r matches Ok(Asset::Css(b)) && b@ == encode_utf8(css@),
            Err(m) => r == Err::<Asset, AssetError>(AssetError::Grass(m)),
        },
{
    match compiled {
        Ok(css) => Ok(Asset::Css(css.as_str().as_bytes_vec())),
        Err(m) => Err(AssetError::Grass(m)),
    }
}

/// The directories a stylesheet's imports are looked up in: the one it
/// lies in, where it has one.
pub fn import_dirs(parent: Option<String>) -> (r: Vec<String>)
    ensures
        match parent {
            Some(p) => r@.len() == 1 && r@[0] == p,
            None => r@.len() == 0,
        },
{
    let mut r: Vec<String> = Vec::new();
    match parent {
        Some(p) => r.push(p),
        None => {},
    }
    r
}

/// What is done with a file's contents before it is served.
#[derive(Debug)]
pub enum Preparation {
    /// The file is served as read.
    Ready(Asset),
    /// The stylesheet's text is compiled to CSS, its imports looked up in
    /// `import_dirs`; [`css_asset`] turns the outcome into the asset.
    Compile { source: String, import_dirs: Vec<String> },
}

/// Decides what a file's contents become: scripts and images are served as
/// read, stylesheets that are UTF-8 go to the compiler (imports resolved in
/// `parent`), and any other extension is refused.
pub fn prepare_asset(extension: Option<&str>, file: Vec<u8>, parent: Option<String>) -> (r: Result<Preparation, AssetError>)
    ensures
        match spec_asset_kind(opt_str(extension)) {
            None => r matches Err(e) && e is UnsupportedAsset,
            Some(AssetKind::Js) => r matches Ok(Preparation::Ready(Asset::Js(b))) && b@ == file@,
            Some(AssetKind::Png) => r matches Ok(Preparation::Ready(Asset::Png(b))) && b@ == file@,
            Some(AssetKind::Scss) => if valid_utf8(file@) {
                r matches Ok(Preparation::Compile { source, import_dirs }) && {
                    &&& source@ == decode_utf8(file@)
                    &&& match parent {
                        Some(p) => import_dirs@.len() == 1 && import_dirs@[0] == p,
                        None => import_dirs@.len() == 0,
                    }
                }
            } else {
                r matches Err(e) && e is Utf8
            },
        },
{
    match asset_kind(extension) {
        None => Err(AssetError::UnsupportedAsset),
        Some(AssetKind::Js) => Ok(Preparation::Ready(Asset::Js(file))),
        Some(AssetKind::Png) => Ok(Preparation::Ready(Asset::Png(file))),
        Some(AssetKind::Scss) => match string_from_utf8(file) {
            None => Err(AssetError::Utf8),
            Some(source) => Ok(Preparation::Compile { source, import_dirs: import_dirs(parent) }),
        },
    }
}

} // verus!

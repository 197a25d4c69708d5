use vstd::prelude::*;

use crate::text::join;

verus! {

/// Url for downloading the update.
pub fn get_download_update_url(base_url: &str) -> (r: String)
    ensures
        r@ == base_url@ + "/downloadupdate"@,
{
    join(base_url, "/downloadupdate")
}

/// Url for uploading a picture.
pub fn get_upload_image_url(base_url: &str) -> (r: String)
    ensures
        r@ == base_url@ + "/uploadimage"@,
{
    join(base_url, "/uploadimage")
}

} // verus!

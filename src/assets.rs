//! Where generated artifacts are written, and the URLs under which they are
//! served. Artifacts live under a device-scoped directory of the asset root;
//! the static file service maps `/assets/...` onto that root.

use vstd::prelude::*;

verus! {

/// Directory under which every generated artifact is stored.
pub open spec fn asset_root() -> Seq<char> {
    "/tmp/ava-bot"@
}

/// URL prefix under which the asset root is served.
pub open spec fn asset_prefix() -> Seq<char> {
    "/assets"@
}

/// The file that the static service answers for `url`, if `url` lies under
/// the asset prefix.
pub open spec fn served_path(url: Seq<char>) -> Option<Seq<char>> {
    let n = asset_prefix().len();
    if n <= url.len() && url.subrange(0, n as int) == asset_prefix() {
        Some(asset_root() + url.subrange(n as int, url.len() as int))
    } else {
        None
    }
}

/// Path of a generated artifact: `<root>/<kind>/<device>/<name>.<ext>`.
pub open spec fn artifact_path(kind: Seq<char>, device_id: Seq<char>, name: Seq<char>, ext: Seq<char>) -> Seq<char> {
    asset_root() + "/"@ + kind + "/"@ + device_id + "/"@ + name + "."@ + ext
}

/// URL of a generated artifact: `/assets/<kind>/<device>/<name>.<ext>`.
pub open spec fn artifact_url(kind: Seq<char>, device_id: Seq<char>, name: Seq<char>, ext: Seq<char>) -> Seq<char> {
    asset_prefix() + "/"@ + kind + "/"@ + device_id + "/"@ + name + "."@ + ext
}

/// The URL of an artifact is served from exactly the path it was written to.
pub proof fn lemma_artifact_url_serves_path(kind: Seq<char>, device_id: Seq<char>, name: Seq<char>, ext: Seq<char>)
    ensures
        served_path(artifact_url(kind, device_id, name, ext)) == Some(artifact_path(kind, device_id, name, ext)),
{
    reveal_strlit("/assets");
    let p = asset_prefix();
    let rest = "/"@ + kind + "/"@ + device_id + "/"@ + name + "."@ + ext;
    let url = artifact_url(kind, device_id, name, ext);
    assert(url =~= p + rest);
    assert(url.subrange(0, p.len() as int) =~= p);
    assert(url.subrange(p.len() as int, url.len() as int) =~= rest);
    assert(asset_root() + rest =~= artifact_path(kind, device_id, name, ext));
}

/// Audio artifacts of a device that every spoken reply is written to.
pub fn audio_path(device_id: &str, name: &str) -> (r: String)
    ensures
        r@ == artifact_path("audio"@, device_id@, name@, "mp3"@),
{
    artifact_location("/tmp/ava-bot", "audio", device_id, name, "mp3")
}

/// URL under which `audio_path(device_id, name)` is served.
pub fn audio_url(device_id: &str, name: &str) -> (r: String)
    ensures
        r@ == artifact_url("audio"@, device_id@, name@, "mp3"@),
{
    artifact_location("/assets", "audio", device_id, name, "mp3")
}

/// Image artifacts of a device that every drawn image is written to.
pub fn image_path(device_id: &str, name: &str) -> (r: String)
    ensures
        r@ == artifact_path("image"@, device_id@, name@, "png"@),
{
    artifact_location("/tmp/ava-bot", "image", device_id, name, "png")
}

/// URL under which `image_path(device_id, name)` is served.
pub fn image_url(device_id: &str, name: &str) -> (r: String)
    ensures
        r@ == artifact_url("image"@, device_id@, name@, "png"@),
{
    artifact_location("/assets", "image", device_id, name, "png")
}

/// An audio artifact's URL is served from the path it was written to.
pub proof fn lemma_audio_url_serves_audio_path(device_id: Seq<char>, name: Seq<char>)
    ensures
        served_path(artifact_url("audio"@, device_id, name, "mp3"@))
            == Some(artifact_path("audio"@, device_id, name, "mp3"@)),
{
    lemma_artifact_url_serves_path("audio"@, device_id, name, "mp3"@);
}

/// An image artifact's URL is served from the path it was written to.
pub proof fn lemma_image_url_serves_image_path(device_id: Seq<char>, name: Seq<char>)
    ensures
        served_path(artifact_url("image"@, device_id, name, "png"@))
            == Some(artifact_path("image"@, device_id, name, "png"@)),
{
    lemma_artifact_url_serves_path("image"@, device_id, name, "png"@);
}

/// `<base>/<kind>/<device>/<name>.<ext>`
fn artifact_location(base: &str, kind: &str, device_id: &str, name: &str, ext: &str) -> (r: String)
    ensures
        r@ == base@ + "/"@ + kind@ + "/"@ + device_id@ + "/"@ + name@ + "."@ + ext@,
{
    let mut s = String::from_str(base);
    s.append("/");
    s.append(kind);
    s.append("/");
    s.append(device_id);
    s.append("/");
    s.append(name);
    s.append(".");
    s.append(ext);
    s
}

} // verus!

//! Rendering the files that shell integration installs: the desktop entry
//! for the context menu, and the native-messaging-host manifest a browser
//! reads.  Writing them to their places is the caller's business.

use crate::jsontext::{append_json_string, spec_json_string};
use vstd::prelude::*;

verus! {

/// The desktop entry for `exe_path`: the fixed entry around the executable
/// path, which appears once per `Exec=` line, quoted, with the `%F` file
/// placeholder.
pub open spec fn spec_desktop_file_content(exe_path: Seq<char>) -> Seq<char> {
    "[Desktop Entry]\nType=Application\nName=OmniTagger\nComment=Get AI Tags for images\nExec=\""@
        + exe_path
        + "\" %F\nIcon=omni-tagger\nTerminal=false\nCategories=Graphics;Utility;\nMimeType=image/jpeg;image/png;image/webp;\nActions=GetTags;\n\n[Desktop Action GetTags]\nName=Get Tags\nExec=\""@
        + exe_path + "\" %F\n"@
}

/// Renders the desktop entry for `exe_path`, exactly as
/// [`spec_desktop_file_content`] describes.
pub fn generate_desktop_file_content(exe_path: &str) -> (r: String)
    ensures
        r@ == spec_desktop_file_content(exe_path@),
{
    let mut r = String::from_str(
        "[Desktop Entry]\nType=Application\nName=OmniTagger\nComment=Get AI Tags for images\nExec=\"",
    );
    r.append(exe_path);
    r.append(
        "\" %F\nIcon=omni-tagger\nTerminal=false\nCategories=Graphics;Utility;\nMimeType=image/jpeg;image/png;image/webp;\nActions=GetTags;\n\n[Desktop Action GetTags]\nName=Get Tags\nExec=\"",
    );
    r.append(exe_path);
    r.append("\" %F\n");
    r
}

/// The one origin the native host accepts: the extension's own.
pub open spec fn spec_allowed_origin(extension_id: Seq<char>) -> Seq<char> {
    "chrome-extension://"@ + extension_id + "/"@
}

/// The native-messaging-host manifest: the fixed host name and description,
/// the path of the host executable, stdio transport, and the one allowed
/// origin built from `extension_id`.  The two embedded strings are escaped
/// as JSON asks.
pub open spec fn spec_linux_manifest(path: Seq<char>, extension_id: Seq<char>) -> Seq<char> {
    "{\"name\":\"com.omnitagger.host\",\"description\":\"OmniTagger Native Messaging Host\",\"path\":"@
        + spec_json_string(path)
        + ",\"type\":\"stdio\",\"allowed_origins\":["@
        + spec_json_string(spec_allowed_origin(extension_id)) + "]}"@
}

/// Renders the native-messaging-host manifest, exactly as
/// [`spec_linux_manifest`] describes.
pub fn generate_linux_manifest(native_host_path: &str, extension_id: &str) -> (r: String)
    ensures
        r@ == spec_linux_manifest(native_host_path@, extension_id@),
{
    let mut origin = String::from_str("chrome-extension://");
    origin.append(extension_id);
    origin.append("/");
    let mut r = String::from_str(
        "{\"name\":\"com.omnitagger.host\",\"description\":\"OmniTagger Native Messaging Host\",\"path\":",
    );
    append_json_string(&mut r, native_host_path);
    r.append(",\"type\":\"stdio\",\"allowed_origins\":[");
    append_json_string(&mut r, origin.as_str());
    r.append("]}");
    r
}

} // verus!

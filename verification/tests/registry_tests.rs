use omni_tagger::registry::{generate_desktop_file_content, generate_linux_manifest};

#[test]
fn test_generate_desktop_file_content() {
    let content = generate_desktop_file_content("/usr/bin/omni-tagger");
    assert!(content.contains("Exec=\"/usr/bin/omni-tagger\" %F"));
    assert!(content.contains("[Desktop Entry]"));
    assert!(content.contains("MimeType=image/jpeg;"));
}

#[test]
fn test_generate_linux_manifest() {
    let manifest = generate_linux_manifest("/usr/bin/native_host", "abcdefg");
    let json: serde_json::Value = serde_json::from_str(&manifest).unwrap();
    assert_eq!(json["name"], "com.omnitagger.host");
    assert_eq!(json["path"], "/usr/bin/native_host");
    assert_eq!(json["allowed_origins"][0], "chrome-extension://abcdefg/");
}

#[test]
fn manifest_escapes_its_embedded_strings() {
    let manifest = generate_linux_manifest("C:\\hosts\\native_host.exe", "id\"with\"quotes");
    let json: serde_json::Value = serde_json::from_str(&manifest).unwrap();
    assert_eq!(json["path"], "C:\\hosts\\native_host.exe");
    assert_eq!(
        json["allowed_origins"][0],
        "chrome-extension://id\"with\"quotes/"
    );
    assert_eq!(json["type"], "stdio");
    assert_eq!(json["description"], "OmniTagger Native Messaging Host");
}

#[test]
fn desktop_file_repeats_the_executable_in_the_action() {
    let content = generate_desktop_file_content("/opt/omni-tagger");
    assert_eq!(content.matches("Exec=\"/opt/omni-tagger\" %F").count(), 2);
    assert!(content.contains("[Desktop Action GetTags]"));
}

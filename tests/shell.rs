use image_convert::shell::{
    command_key,
    label_for_upper, launcher_script, menu_command, menu_label, services_plist, subcommand_name,
    subcommands_value, workflow_document, workflow_name, workflow_name_for_upper, DESKTOP_FORMATS,
    SERVICES_HEAD, SERVICES_TAIL, WINDOWS_MENU_FORMATS, WORKFLOW_HEAD, WORKFLOW_TAIL,
};

#[test]
fn labels_upper_case_the_format() {
    assert_eq!(menu_label("webp"), "Convert to WEBP");
    assert_eq!(menu_label("tiff"), "Convert to TIFF");
    assert_eq!(label_for_upper("PNG"), "Convert to PNG");
}

#[test]
fn workflow_names() {
    assert_eq!(workflow_name("jpg"), "ConvertToJPG.workflow");
    assert_eq!(workflow_name_for_upper("RAW"), "ConvertToRAW.workflow");
}

#[test]
fn subcommands_are_joined_by_semicolons() {
    assert_eq!(subcommand_name("bmp"), "ImageConverter.bmp");
    assert_eq!(subcommands_value(&["bmp", "gif"]), "ImageConverter.bmp;ImageConverter.gif");
    assert_eq!(subcommands_value(&[]), "");
    assert_eq!(subcommands_value(&["png"]), "ImageConverter.png");
    let all = subcommands_value(&WINDOWS_MENU_FORMATS);
    assert_eq!(all.split(';').count(), WINDOWS_MENU_FORMATS.len());
    assert!(all.ends_with("ImageConverter.webp"));
}

#[test]
fn commands_invoke_the_converter() {
    assert_eq!(menu_command("C:\\bin\\conv.exe", "png"), "\"C:\\bin\\conv.exe\" convert png \"%1\"");
    assert_eq!(launcher_script("/usr/bin/conv", "webp"), "#!/bin/bash\n\"/usr/bin/conv\" convert webp \"$@\"\n");
}

#[test]
fn quick_action_documents() {
    let doc = workflow_document("/Apps/conv", "png");
    assert_eq!(doc, format!("{}#!/bin/bash\n\"/Apps/conv\" convert png \"$@\"{}", WORKFLOW_HEAD, WORKFLOW_TAIL));
    assert!(doc.contains("<key>script</key>"));
    let plist = services_plist("Convert to PNG");
    assert_eq!(plist, format!("{}Convert to PNG{}", SERVICES_HEAD, SERVICES_TAIL));
    assert!(plist.contains("<string>Convert to PNG</string>"));
    assert_eq!(DESKTOP_FORMATS, ["webp", "png", "jpg", "raw"]);
}

#[test]
fn command_keys_sit_in_the_command_store() {
    assert_eq!(
        command_key("png"),
        "Software\\Microsoft\\Windows\\CurrentVersion\\Explorer\\CommandStore\\shell\\ImageConverter.png"
    );
}

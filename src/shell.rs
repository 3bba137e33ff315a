//! The text of the desktop integrations that offer "Convert to ..." actions:
//! registry values on Windows, Quick Action files on macOS, file-manager
//! scripts on Linux. Writing them out is left to the caller.
use vstd::prelude::*;
use vstd::string::StringExecFns;

verus! {

/// Formats offered in the Windows context menu.
pub const WINDOWS_MENU_FORMATS: [&'static str; 12] = [
    "bmp", "eps", "exr", "gif", "ico", "jpg", "png", "svg", "tga", "tiff", "wbmp", "webp",
];

/// Formats offered as macOS Quick Actions and Linux file-manager scripts.
pub const DESKTOP_FORMATS: [&'static str; 4] = ["webp", "png", "jpg", "raw"];

/// Registry key, under the classes root, of the top-level menu entry.
pub const MENU_KEY: &'static str = "*\\shell\\ImageConverter";

/// Registry key, under the classes root, that holds the sub-commands.
pub const COMMAND_STORE_KEY: &'static str = "Software\\Microsoft\\Windows\\CurrentVersion\\Explorer\\CommandStore\\shell";

/// Start of a Quick Action document, up to the script that it runs.
pub const WORKFLOW_HEAD: &'static str = "<?xml version=\"1.0\" encoding=\"UTF-8\"?>
<!DOCTYPE plist PUBLIC \"-//Apple//DTD PLIST 1.0//EN\" \"http://www.apple.com/DTDs/PropertyList-1.0.dtd\">
<plist version=\"1.0\">
<dict>
    <key>AMApplicationBuild</key>
    <string>521.1</string>
    <key>AMApplicationVersion</key>
    <string>2.10</string>
    <key>AMDocumentVersion</key>
    <string>2</string>
    <key>actions</key>
    <array>
        <dict>
            <key>action</key>
            <dict>
                <key>script</key>
                <string>";

/// End of a Quick Action document, after the script that it runs.
pub const WORKFLOW_TAIL: &'static str = "</string>
            </dict>
        </dict>
    </array>
</dict>
</plist>
";

/// Start of a Quick Action's service description, up to its menu text.
pub const SERVICES_HEAD: &'static str = "<?xml version=\"1.0\" encoding=\"UTF-8\"?>
<!DOCTYPE plist PUBLIC \"-//Apple//DTD PLIST 1.0//EN\" \"http://www.apple.com/DTDs/PropertyList-1.0.dtd\">
<plist version=\"1.0\">
<dict>
    <key>NSServices</key>
    <array>
        <dict>
            <key>NSMenuItem</key>
            <dict>
                <key>default</key>
                <string>";

/// End of a Quick Action's service description, after its menu text.
pub const SERVICES_TAIL: &'static str = "</string>
            </dict>
            <key>NSMessage</key>
            <string>runWorkflowAsService</string>
            <key>NSRequiredFileTypes</key>
            <array>
                <string>public.image</string>
            </array>
            <key>NSSendFileTypes</key>
            <array>
                <string>public.image</string>
            </array>
        </dict>
    </array>
</dict>
</plist>
";

/// The upper-case form of a string, as `str::to_uppercase` computes it.
pub uninterp spec fn upper_of(s: Seq<char>) -> Seq<char>;

/// Relies on `str::to_uppercase`: the result depends on the characters alone.
#[verifier::external_body]
fn uppercase(s: &str) -> (r: String)
    ensures
        r@ == upper_of(s@),
{
    s.to_uppercase()
}

/// `a` followed by `b`.
fn joined(a: &str, b: &str) -> (r: String)
    ensures
        r@ == a@ + b@,
{
    let mut r = String::from_str(a);
    r.append(b);
    r
}

/// The menu text for a format whose name is already upper-cased.
pub fn label_for_upper(upper: &str) -> (r: String)
    ensures
        r@ == "Convert to "@ + upper@,
{
    joined("Convert to ", upper)
}

/// The menu text for a format: `Convert to ` and the upper-cased name.
pub fn menu_label(format: &str) -> (r: String)
    ensures
        r@ == "Convert to "@ + upper_of(format@),
{
    let upper = uppercase(format);
    label_for_upper(upper.as_str())
}

/// The name of the Quick Action bundle for a format whose name is already upper-cased.
pub fn workflow_name_for_upper(upper: &str) -> (r: String)
    ensures
        r@ == "ConvertTo"@ + upper@ + ".workflow"@,
{
    let mut r = joined("ConvertTo", upper);
    r.append(".workflow");
    r
}

/// The name of the Quick Action bundle for a format.
pub fn workflow_name(format: &str) -> (r: String)
    ensures
        r@ == "ConvertTo"@ + upper_of(format@) + ".workflow"@,
{
    let upper = uppercase(format);
    workflow_name_for_upper(upper.as_str())
}

/// The registry name of the sub-command for a format.
pub fn subcommand_name(format: &str) -> (r: String)
    ensures
        r@ == "ImageConverter."@ + format@,
{
    joined("ImageConverter.", format)
}

/// The sub-command names of `formats`, each followed by `;` but the last.
pub open spec fn subcommand_list(formats: Seq<&str>) -> Seq<char>
    decreases formats.len(),
{
    if formats.len() == 0 {
        Seq::empty()
    } else if formats.len() == 1 {
        "ImageConverter."@ + formats[0]@
    } else {
        subcommand_list(formats.drop_last()) + ";"@ + "ImageConverter."@ + formats.last()@
    }
}

/// The registry key, under the classes root, of the sub-command for a format.
pub fn command_key(format: &str) -> (r: String)
    ensures
        r@ == COMMAND_STORE_KEY@ + "\\"@ + "ImageConverter."@ + format@,
{
    let mut r = joined(COMMAND_STORE_KEY, "\\");
    r.append("ImageConverter.");
    r.append(format);
    r
}

/// The value that lists the sub-commands of the menu entry, separated by `;`.
pub fn subcommands_value(formats: &[&str]) -> (r: String)
    ensures
        r@ == subcommand_list(formats@),
{
    let mut r = String::new();
    let mut i: usize = 0;
    while i < formats.len()
        invariant
            i <= formats@.len(),
            r@ == subcommand_list(formats@.subrange(0, i as int)),
        decreases formats.len() - i,
    {
        if i > 0 {
            r.append(";");
        }
        r.append("ImageConverter.");
        r.append(formats[i]);
        proof {
            let s = formats@.subrange(0, i + 1);
            assert(s.drop_last() =~= formats@.subrange(0, i as int));
            assert(s.last() == formats@[i as int]);
        }
        i = i + 1;
    }
    proof {
        assert(formats@.subrange(0, formats@.len() as int) =~= formats@);
    }
    r
}

/// The command line that the menu runs for a format; `%1` stands for the file.
pub fn menu_command(exe: &str, format: &str) -> (r: String)
    ensures
        r@ == "\""@ + exe@ + "\" convert "@ + format@ + " \"%1\""@,
{
    let mut r = joined("\"", exe);
    r.append("\" convert ");
    r.append(format);
    r.append(" \"%1\"");
    r
}

/// The shell script that a file-manager action runs for a format; it passes
/// on every selected file.
pub fn launcher_script(exe: &str, format: &str) -> (r: String)
    ensures
        r@ == "#!/bin/bash\n\""@ + exe@ + "\" convert "@ + format@ + " \"$@\"\n"@,
{
    let mut r = joined("#!/bin/bash\n\"", exe);
    r.append("\" convert ");
    r.append(format);
    r.append(" \"$@\"\n");
    r
}

/// The Quick Action document for a format: it runs the converter on every
/// selected file.
pub fn workflow_document(exe: &str, format: &str) -> (r: String)
    ensures
        r@ == WORKFLOW_HEAD@ + "#!/bin/bash\n\""@ + exe@ + "\" convert "@ + format@ + " \"$@\""@
            + WORKFLOW_TAIL@,
{
    let mut r = joined(WORKFLOW_HEAD, "#!/bin/bash\n\"");
    r.append(exe);
    r.append("\" convert ");
    r.append(format);
    r.append(" \"$@\"");
    r.append(WORKFLOW_TAIL);
    r
}

/// The service description of a Quick Action whose menu text is `label`.
pub fn services_plist(label: &str) -> (r: String)
    ensures
        r@ == SERVICES_HEAD@ + label@ + SERVICES_TAIL@,
{
    let mut r = joined(SERVICES_HEAD, label);
    r.append(SERVICES_TAIL);
    r
}

} // verus!

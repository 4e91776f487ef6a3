//! What the operating systems are handed to start the tool at login. The
//! files and the registry are written by the caller.

use vstd::prelude::*;
use vstd::string::StringExecFns;

verus! {

/// The desktop entry for `~/.config/autostart` that starts the program at
/// `exe_path` with the argument `--startup`.
pub open spec fn desktop_entry_text(exe_path: Seq<char>) -> Seq<char> {
    "[Desktop Entry]\n"@
        + "Type=Application\n"@
        + "Name=Turbo Notes\n"@
        + "Comment=Minimalist note-taking application\n"@
        + "Exec="@
        + exe_path
        + " --startup\n"@
        + "Icon=text-editor\n"@
        + "Hidden=false\n"@
        + "NoDisplay=false\n"@
        + "X-GNOME-Autostart-enabled=true\n"@
        + "StartupNotify=false\n"@
}

/// The desktop entry that starts the program at `exe_path` at login.
pub fn desktop_entry(exe_path: &str) -> (r: String)
    ensures
        r@ == desktop_entry_text(exe_path@),
{
    let mut out = String::new();
    out.append("[Desktop Entry]\n");
    out.append("Type=Application\n");
    out.append("Name=Turbo Notes\n");
    out.append("Comment=Minimalist note-taking application\n");
    out.append("Exec=");
    out.append(exe_path);
    out.append(" --startup\n");
    out.append("Icon=text-editor\n");
    out.append("Hidden=false\n");
    out.append("NoDisplay=false\n");
    out.append("X-GNOME-Autostart-enabled=true\n");
    out.append("StartupNotify=false\n");
    out
}

/// The property list for `~/Library/LaunchAgents` that runs the program at
/// `exe_path` with the argument `--startup` when the user logs in, and does
/// not keep it alive.
pub open spec fn launch_agent_text(exe_path: Seq<char>) -> Seq<char> {
    "<?xml version=\"1.0\" encoding=\"UTF-8\"?>\n"@
        + "<!DOCTYPE plist PUBLIC \"-//Apple//DTD PLIST 1.0//EN\" "@
        + "\"http://www.apple.com/DTDs/PropertyList-1.0.dtd\">\n"@
        + "<plist version=\"1.0\">\n"@
        + "<dict>\n"@
        + "    <key>Label</key>\n"@
        + "    <string>com.turbo-notes</string>\n"@
        + "    <key>ProgramArguments</key>\n"@
        + "    <array>\n"@
        + "        <string>"@
        + exe_path
        + "</string>\n"@
        + "        <string>--startup</string>\n"@
        + "    </array>\n"@
        + "    <key>RunAtLoad</key>\n"@
        + "    <true/>\n"@
        + "    <key>KeepAlive</key>\n"@
        + "    <false/>\n"@
        + "</dict>\n"@
        + "</plist>\n"@
}

/// The property list that runs the program at `exe_path` at login.
pub fn launch_agent(exe_path: &str) -> (r: String)
    ensures
        r@ == launch_agent_text(exe_path@),
{
    let mut out = String::new();
    out.append("<?xml version=\"1.0\" encoding=\"UTF-8\"?>\n");
    out.append("<!DOCTYPE plist PUBLIC \"-//Apple//DTD PLIST 1.0//EN\" ");
    out.append("\"http://www.apple.com/DTDs/PropertyList-1.0.dtd\">\n");
    out.append("<plist version=\"1.0\">\n");
    out.append("<dict>\n");
    out.append("    <key>Label</key>\n");
    out.append("    <string>com.turbo-notes</string>\n");
    out.append("    <key>ProgramArguments</key>\n");
    out.append("    <array>\n");
    out.append("        <string>");
    out.append(exe_path);
    out.append("</string>\n");
    out.append("        <string>--startup</string>\n");
    out.append("    </array>\n");
    out.append("    <key>RunAtLoad</key>\n");
    out.append("    <true/>\n");
    out.append("    <key>KeepAlive</key>\n");
    out.append("    <false/>\n");
    out.append("</dict>\n");
    out.append("</plist>\n");
    out
}

/// The command line for the `Run` key of the registry: the program at
/// `exe_path` with the argument `--startup`.
pub open spec fn startup_command_text(exe_path: Seq<char>) -> Seq<char> {
    exe_path + " --startup"@
}

/// The command line that starts the program at `exe_path` at login.
pub fn startup_command(exe_path: &str) -> (r: String)
    ensures
        r@ == startup_command_text(exe_path@),
{
    let mut out = String::new();
    out.append(exe_path);
    out.append(" --startup");
    out
}

} // verus!

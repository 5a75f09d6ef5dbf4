//! The supported download tools and what is known of their installation.
use vstd::prelude::*;
use crate::text::concat;
use crate::download::{opt_text, same_text, texts};

verus! {

/// A supported tool.
#[derive(Debug, Clone, Copy, PartialEq, Eq, Structural)]
pub enum ToolType {
    YtDlp,
    Lux,
    YouGet,
}

impl ToolType {
    pub open spec fn name(self) -> Seq<char> {
        match self {
            ToolType::YtDlp => "yt-dlp"@,
            ToolType::Lux => "lux"@,
            ToolType::YouGet => "you-get"@,
        }
    }

    /// The tool's program name.
    pub fn as_str(&self) -> (r: &'static str)
        ensures
            r@ == self.name(),
    {
        match self {
            ToolType::YtDlp => "yt-dlp",
            ToolType::Lux => "lux",
            ToolType::YouGet => "you-get",
        }
    }

    /// The tool with program name `name`, if there is one.
    pub fn from_name(name: &str) -> (r: Option<ToolType>)
        ensures
            r matches Some(t) ==> t.name() == name@,
            r is None ==> name@ != "yt-dlp"@ && name@ != "lux"@ && name@ != "you-get"@,
    {
        if same_text(name, "yt-dlp") {
            Some(ToolType::YtDlp)
        } else if same_text(name, "lux") {
            Some(ToolType::Lux)
        } else if same_text(name, "you-get") {
            Some(ToolType::YouGet)
        } else {
            None
        }
    }

    /// The flag that makes the tool print its version.
    pub fn version_flag(&self) -> (r: &'static str)
        ensures
            r@ == (if *self == ToolType::Lux { "-v"@ } else { "--version"@ }),
    {
        match self {
            ToolType::Lux => "-v",
            _ => "--version",
        }
    }
}

/// What is known of one tool's installation.
#[derive(Debug, Clone)]
pub struct ToolInfo {
    pub name: String,
    pub tool_type: ToolType,
    pub version: Option<String>,
    pub path: Option<String>,
    pub is_available: bool,
    pub last_updated: Option<String>,
}

/// The places where a tool's program is looked for, in order: the package
/// manager locations, the system location, then the user's own ones.
pub open spec fn candidate_paths_of(binary: Seq<char>, home: Option<Seq<char>>) -> Seq<Seq<char>> {
    seq!["/opt/homebrew/bin/"@ + binary, "/usr/local/bin/"@ + binary, "/usr/bin/"@ + binary]
        + match home {
            Some(h) => seq![h + "/.local/bin/"@ + binary, h + "/.cargo/bin/"@ + binary],
            None => seq![],
        }
}

/// Builds tool records from what the caller found on the system.
#[derive(Debug, Clone, Copy)]
pub struct ToolManager;

impl ToolManager {
    pub fn new() -> (r: Self) {
        ToolManager
    }

    /// The record of `tool_type`, found at `path` with `version` (or not found).
    pub fn get_tool_info(&self, tool_type: ToolType, path: Option<String>, version: Option<String>) -> (r: ToolInfo)
        ensures
            r.name@ == tool_type.name(),
            r.tool_type == tool_type,
            opt_text(r.path) == opt_text(path),
            opt_text(r.version) == opt_text(version),
            r.is_available == path is Some,
            r.last_updated is None,
    {
        let available = path.is_some();
        ToolInfo {
            name: tool_type.as_str().to_string(),
            tool_type,
            version,
            path,
            is_available: available,
            last_updated: None,
        }
    }

    /// The places to look for a tool's program.
    pub fn candidate_paths(&self, tool_type: ToolType, home: Option<&str>) -> (r: Vec<String>)
        ensures
            texts(r@) == candidate_paths_of(tool_type.name(), match home { Some(h) => Some(h@), None => None }),
    {
        let b = tool_type.as_str();
        let mut v: Vec<String> = Vec::new();
        v.push(concat("/opt/homebrew/bin/", b));
        v.push(concat("/usr/local/bin/", b));
        v.push(concat("/usr/bin/", b));
        match home {
            Some(h) => {
                let mut x = h.to_string();
                crate::text::push_str(&mut x, "/.local/bin/");
                crate::text::push_str(&mut x, b);
                v.push(x);
                let mut y = h.to_string();
                crate::text::push_str(&mut y, "/.cargo/bin/");
                crate::text::push_str(&mut y, b);
                v.push(y);
            },
            None => {},
        }
        assert(texts(v@) =~= candidate_paths_of(tool_type.name(), match home { Some(h) => Some(h@), None => None }));
        v
    }

    /// The records of all tools, given what was found for each.
    pub fn get_all_tools(&self, found: Vec<(Option<String>, Option<String>)>) -> (r: Vec<ToolInfo>)
        requires
            found@.len() == 3,
        ensures
            r@.len() == 3,
            r@[0].tool_type == ToolType::YtDlp && r@[1].tool_type == ToolType::Lux && r@[2].tool_type == ToolType::YouGet,
            forall|i: int| 0 <= i < 3 ==> opt_text(#[trigger] r@[i].path) == opt_text(found@[i].0)
                && r@[i].is_available == found@[i].0 is Some && opt_text(r@[i].version) == opt_text(found@[i].1),
    {
        let mut found = found;
        let c = found.pop().unwrap();
        let b = found.pop().unwrap();
        let a = found.pop().unwrap();
        let mut v: Vec<ToolInfo> = Vec::new();
        v.push(self.get_tool_info(ToolType::YtDlp, a.0, a.1));
        v.push(self.get_tool_info(ToolType::Lux, b.0, b.1));
        v.push(self.get_tool_info(ToolType::YouGet, c.0, c.1));
        v
    }
}

/// The command that updates a tool: the package manager when it is present
/// (the lux formula is named "annie"), else the tool's own installer.
pub open spec fn update_command_of(tool: ToolType, brew: bool) -> (Seq<char>, Seq<Seq<char>>) {
    match tool {
        ToolType::YtDlp => if brew { ("brew"@, seq!["upgrade"@, "yt-dlp"@]) } else { ("pip3"@, seq!["install"@, "-U"@, "yt-dlp"@]) },
        ToolType::Lux => if brew { ("brew"@, seq!["upgrade"@, "annie"@]) } else { ("go"@, seq!["get"@, "-u"@, "github.com/iawia002/lux"@]) },
        ToolType::YouGet => ("pip3"@, seq!["install"@, "-U"@, "you-get"@]),
    }
}

/// The program and arguments that update `tool`; `brew` tells whether the
/// package manager is installed.
pub fn update_command(tool: ToolType, brew: bool) -> (r: (String, Vec<String>))
    ensures
        (r.0@, texts(r.1@)) == update_command_of(tool, brew),
{
    let mut a: Vec<String> = Vec::new();
    let program: String = match tool {
        ToolType::YtDlp => {
            if brew {
                a.push("upgrade".to_string());
                a.push("yt-dlp".to_string());
                "brew".to_string()
            } else {
                a.push("install".to_string());
                a.push("-U".to_string());
                a.push("yt-dlp".to_string());
                "pip3".to_string()
            }
        },
        ToolType::Lux => {
            if brew {
                a.push("upgrade".to_string());
                a.push("annie".to_string());
                "brew".to_string()
            } else {
                a.push("get".to_string());
                a.push("-u".to_string());
                a.push("github.com/iawia002/lux".to_string());
                "go".to_string()
            }
        },
        ToolType::YouGet => {
            a.push("install".to_string());
            a.push("-U".to_string());
            a.push("you-get".to_string());
            "pip3".to_string()
        },
    };
    assert(texts(a@) =~= update_command_of(tool, brew).1);
    (program, a)
}

} // verus!

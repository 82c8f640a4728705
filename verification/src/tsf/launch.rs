//! Where the text service finds the server it starts when the pipe is not there.
use vstd::prelude::*;

use crate::paths::{is_file, join_path, joined_path, parent_of, parent_path};

verus! {

/// The server's executable, installed next to the text service's DLL.
pub open spec fn server_exe() -> Seq<char> {
    "qingjian-server.exe"@
}

/// The path of the server's executable for the DLL at `module`: the file `qingjian-server.exe` in
/// the DLL's directory. An error when the DLL's path has no directory, or when no file is there
/// (a DLL run on its own during development); the error says which.
pub fn server_path(module: &str) -> (r: Result<String, String>)
    ensures
        parent_of(module@) is None ==> (r matches Err(m) && m@ == "DLL 路径没有上级目录"@),
        parent_of(module@) matches Some(dir) ==> match r {
            Ok(exe) => exe@ == joined_path(dir, server_exe()),
            Err(m) => m@ == joined_path(dir, server_exe()) + " 不在"@,
        },
{
    match parent_path(module) {
        None => Err(String::from_str("DLL 路径没有上级目录")),
        Some(dir) => {
            let exe = join_path(dir.as_str(), "qingjian-server.exe");
            if is_file(exe.as_str()) {
                Ok(exe)
            } else {
                let mut message = exe;
                message.append(" 不在");
                Err(message)
            }
        },
    }
}

} // verus!

//! Unix path text: joining components the way `PathBuf::push` does, and the
//! places where scheduling keeps its files.

use vstd::prelude::*;
use vstd::string::StrSliceExecFns;
use vstd::string::StringExecFns;
use crate::task::TaskId;

verus! {

/// `base` with `comp` pushed on (`PathBuf::push` on Unix): an absolute
/// `comp` replaces `base`; otherwise a `/` is put between them unless
/// `base` is empty or already ends in one.
pub open spec fn path_push(base: Seq<char>, comp: Seq<char>) -> Seq<char> {
    if comp.len() > 0 && comp[0] == '/' {
        comp
    } else if base.len() > 0 && base.last() != '/' {
        base + "/"@ + comp
    } else {
        base + comp
    }
}

/// `base` with `comp` pushed on.
pub fn push_path(base: &str, comp: &str) -> (r: String)
    ensures
        r@ == path_push(base@, comp@),
{
    let m = comp.unicode_len();
    if m > 0 && comp.get_char(0) == '/' {
        return comp.to_owned();
    }
    let mut out = base.to_owned();
    if crate::text::ends_with_char(base, '/') || base.unicode_len() == 0 {
        out.append(comp);
        out
    } else {
        out.append("/");
        out.append(comp);
        out
    }
}

/// `~/.ata/cron` for the home directory `home`: where prompts and logs of
/// OS cron jobs live.
pub fn cron_data_dir(home: &str) -> (r: String)
    ensures
        r@ == path_push(path_push(home@, ".ata"@), "cron"@),
{
    let a = push_path(home, ".ata");
    push_path(a.as_str(), "cron")
}

/// `<dir>/<id>.prompt`: the file holding a job's prompt.
pub fn prompt_path(dir: &str, task_id: &TaskId) -> (r: String)
    ensures
        r@ == path_push(dir@, task_id@ + ".prompt"@),
{
    let mut name = task_id.as_str().to_owned();
    name.append(".prompt");
    push_path(dir, name.as_str())
}

/// `<dir>/<id>.log`: the file cron appends a job's output to.
pub fn log_path(dir: &str, task_id: &TaskId) -> (r: String)
    ensures
        r@ == path_push(dir@, task_id@ + ".log"@),
{
    let mut name = task_id.as_str().to_owned();
    name.append(".log");
    push_path(dir, name.as_str())
}

/// `path` with `suffix` appended to its last component's text.
pub fn with_suffix(path: &str, suffix: &str) -> (r: String)
    ensures
        r@ == path@ + suffix@,
{
    let mut s = path.to_owned();
    s.append(suffix);
    s
}

} // verus!

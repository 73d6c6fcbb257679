//! Fixed locations inside the state directory.
use vstd::prelude::*;

verus! {

/// `dir` joined with a relative `name`, as a path push does it: a `/` is
/// put between them unless `dir` is empty or already ends with one.
pub open spec fn path_join(dir: Seq<char>, name: Seq<char>) -> Seq<char> {
    if dir.len() == 0 || dir.last() == '/' {
        dir + name
    } else {
        dir + seq!['/'] + name
    }
}

pub fn join_name(dir: &str, name: &str) -> (r: String)
    ensures
        r@ == path_join(dir@, name@),
{
    let mut r = String::from_str(dir);
    let n = dir.unicode_len();
    if n > 0 && dir.get_char(n - 1) != '/' {
        proof {
            reveal_strlit("/");
        }
        r.append("/");
    }
    r.append(name);
    r
}

/// The Lock Record's path in the state directory `dir`.
pub fn pid_path(dir: &str) -> (r: String)
    ensures
        r@ == path_join(dir@, "daemon.pid"@),
{
    join_name(dir, "daemon.pid")
}

/// The Cached Image's path in the state directory `dir`.
pub fn cached_image_path(dir: &str) -> (r: String)
    ensures
        r@ == path_join(dir@, "current_wallpaper.jpg"@),
{
    join_name(dir, "current_wallpaper.jpg")
}

/// Where a download is staged before it replaces the Cached Image. It lies
/// in the same directory, so that the replacement is a single rename.
pub fn staged_image_path(dir: &str) -> (r: String)
    ensures
        r@ == path_join(dir@, "current_wallpaper.jpg.part"@),
{
    join_name(dir, "current_wallpaper.jpg.part")
}

/// The file that keeps the last fatal startup error.
pub fn error_log_path(dir: &str) -> (r: String)
    ensures
        r@ == path_join(dir@, "err.log"@),
{
    join_name(dir, "err.log")
}

/// The default state directory, from the values of `XDG_STATE_HOME` and
/// `HOME` (`None` where a variable is unset): `$XDG_STATE_HOME/wall-updater`,
/// else `$HOME/.local/state/wall-updater`; `None` when neither is set.
pub fn default_state_dir(xdg_state_home: Option<&str>, home: Option<&str>) -> (r: Option<String>)
    ensures
        xdg_state_home matches Some(x) ==> (r matches Some(p) && p@ == path_join(
            x@,
            "wall-updater"@,
        )),
        (xdg_state_home is None && home is Some) ==> (r matches Some(p) && p@ == path_join(
            path_join(home.unwrap()@, ".local/state"@),
            "wall-updater"@,
        )),
        (xdg_state_home is None && home is None) ==> r is None,
{
    match xdg_state_home {
        Some(x) => Some(join_name(x, "wall-updater")),
        None => match home {
            Some(h) => {
                let base = join_name(h, ".local/state");
                Some(join_name(base.as_str(), "wall-updater"))
            },
            None => None,
        },
    }
}

/// The URI under which the desktop is given a local image file.
pub fn wallpaper_uri(path: &str) -> (r: String)
    ensures
        r@ == "file://"@ + path@,
{
    let r = String::from_str("file://");
    r.concat(path)
}

} // verus!

use vstd::prelude::*;

use crate::error::WallpaperError;

verus! {

/// Window class of the desktop shell's root window.
pub const SHELL_ROOT_CLASS: &'static str = "Progman";

/// Window class of the desktop icon view.
pub const ICON_VIEW_CLASS: &'static str = "SHELLDLL_DefView";

/// Window class of the shell's worker windows, one of which sits behind the icons.
pub const WORKER_CLASS: &'static str = "WorkerW";

/// One window: its handle and its class name.
#[derive(Clone, Debug)]
pub struct WindowEntry {
    pub handle: isize,
    pub class_name: String,
}

/// A top-level window with its direct children, as one enumeration saw it.
#[derive(Clone, Debug)]
pub struct TopLevelWindow {
    pub handle: isize,
    pub class_name: String,
    pub children: Vec<WindowEntry>,
}

pub open spec fn is_root(w: TopLevelWindow) -> bool {
    w.class_name@ == SHELL_ROOT_CLASS@
}

pub open spec fn is_worker(w: TopLevelWindow) -> bool {
    w.class_name@ == WORKER_CLASS@
}

pub open spec fn hosts_icon_view(w: TopLevelWindow) -> bool {
    exists|k: int|
        0 <= k < w.children@.len() && (#[trigger] w.children@[k]).class_name@ == ICON_VIEW_CLASS@
}

/// Index `i` holds the first shell root window, in enumeration order.
pub open spec fn root_at(ws: Seq<TopLevelWindow>, i: int) -> bool {
    &&& 0 <= i < ws.len()
    &&& is_root(ws[i])
    &&& forall|k: int| 0 <= k < i ==> !is_root(#[trigger] ws[k])
}

/// Index `i` holds the first top-level window that hosts the icon view.
pub open spec fn icon_host_at(ws: Seq<TopLevelWindow>, i: int) -> bool {
    &&& 0 <= i < ws.len()
    &&& hosts_icon_view(ws[i])
    &&& forall|k: int| 0 <= k < i ==> !hosts_icon_view(#[trigger] ws[k])
}

/// Index `j` holds the first worker window that follows index `i`.
pub open spec fn worker_after(ws: Seq<TopLevelWindow>, i: int, j: int) -> bool {
    &&& i < j < ws.len()
    &&& is_worker(ws[j])
    &&& forall|k: int| i < k < j ==> !is_worker(#[trigger] ws[k])
}

/// `h` is the worker window that follows the window hosting the icon view.
pub open spec fn found_after_icon_view(ws: Seq<TopLevelWindow>, h: isize) -> bool {
    exists|i: int, j: int| icon_host_at(ws, i) && worker_after(ws, i, j) && ws[j].handle == h
}

pub open spec fn has_worker_after_icon_view(ws: Seq<TopLevelWindow>) -> bool {
    exists|i: int, j: int| icon_host_at(ws, i) && worker_after(ws, i, j)
}

/// `h` is the first worker-class child of the shell root.
pub open spec fn found_under_root(ws: Seq<TopLevelWindow>, h: isize) -> bool {
    exists|i: int, k: int|
        root_at(ws, i) && first_worker_child(ws[i].children@, k) && ws[i].children@[k].handle == h
}

pub open spec fn has_worker_under_root(ws: Seq<TopLevelWindow>) -> bool {
    exists|i: int, k: int| root_at(ws, i) && first_worker_child(ws[i].children@, k)
}

pub open spec fn first_worker_child(cs: Seq<WindowEntry>, k: int) -> bool {
    &&& 0 <= k < cs.len()
    &&& cs[k].class_name@ == WORKER_CLASS@
    &&& forall|m: int| 0 <= m < k ==> (#[trigger] cs[m]).class_name@ != WORKER_CLASS@
}

fn class_is(w: &String, class: &str) -> (r: bool)
    ensures
        r == (w@ == class@),
{
    let c = String::from_str(class);
    *w == c
}

/// The handle of the desktop shell's root window: the first top-level window
/// of the root class.
pub fn find_shell_root(windows: &Vec<TopLevelWindow>) -> (r: Option<isize>)
    ensures
        r is None <==> forall|i: int| 0 <= i < windows@.len() ==> !is_root(#[trigger] windows@[i]),
        r matches Some(h) ==> exists|i: int| root_at(windows@, i) && windows@[i].handle == h,
{
    match root_index(windows) {
        Some(i) => Some(windows[i].handle),
        None => None,
    }
}

fn root_index(windows: &Vec<TopLevelWindow>) -> (r: Option<usize>)
    ensures
        r is None <==> forall|i: int| 0 <= i < windows@.len() ==> !is_root(#[trigger] windows@[i]),
        r matches Some(i) ==> root_at(windows@, i as int),
{
    let mut i: usize = 0;
    while i < windows.len()
        invariant
            0 <= i <= windows@.len(),
            forall|k: int| 0 <= k < i ==> !is_root(#[trigger] windows@[k]),
        decreases windows@.len() - i,
    {
        if class_is(&windows[i].class_name, SHELL_ROOT_CLASS) {
            return Some(i);
        }
        i = i + 1;
    }
    None
}

fn icon_host_index(windows: &Vec<TopLevelWindow>) -> (r: Option<usize>)
    ensures
        r is None <==> forall|i: int|
            0 <= i < windows@.len() ==> !hosts_icon_view(#[trigger] windows@[i]),
        r matches Some(i) ==> icon_host_at(windows@, i as int),
{
    let mut i: usize = 0;
    while i < windows.len()
        invariant
            0 <= i <= windows@.len(),
            forall|k: int| 0 <= k < i ==> !hosts_icon_view(#[trigger] windows@[k]),
        decreases windows@.len() - i,
    {
        let children = &windows[i].children;
        let mut k: usize = 0;
        while k < children.len()
            invariant
                i < windows@.len(),
                forall|m: int| 0 <= m < i ==> !hosts_icon_view(#[trigger] windows@[m]),
                children == windows@[i as int].children,
                0 <= k <= children@.len(),
                forall|m: int|
                    0 <= m < k ==> (#[trigger] children@[m]).class_name@ != ICON_VIEW_CLASS@,
            decreases children@.len() - k,
        {
            if class_is(&children[k].class_name, ICON_VIEW_CLASS) {
                assert(hosts_icon_view(windows@[i as int]));
                return Some(i);
            }
            k = k + 1;
        }
        assert(!hosts_icon_view(windows@[i as int]));
        i = i + 1;
    }
    None
}

fn worker_index_after(windows: &Vec<TopLevelWindow>, start: usize) -> (r: Option<usize>)
    requires
        start < windows@.len(),
    ensures
        r is None <==> forall|j: int|
            start < j < windows@.len() ==> !is_worker(#[trigger] windows@[j]),
        r matches Some(j) ==> worker_after(windows@, start as int, j as int),
{
    let n = windows.len();
    let mut j: usize = start + 1;
    while j < windows.len()
        invariant
            start < j <= windows@.len(),
            forall|k: int| start < k < j ==> !is_worker(#[trigger] windows@[k]),
        decreases windows@.len() - j,
    {
        if class_is(&windows[j].class_name, WORKER_CLASS) {
            return Some(j);
        }
        j = j + 1;
    }
    None
}

fn worker_child_index(children: &Vec<WindowEntry>) -> (r: Option<usize>)
    ensures
        r is None <==> forall|k: int|
            0 <= k < children@.len() ==> (#[trigger] children@[k]).class_name@ != WORKER_CLASS@,
        r matches Some(k) ==> first_worker_child(children@, k as int),
{
    let mut k: usize = 0;
    while k < children.len()
        invariant
            0 <= k <= children@.len(),
            forall|m: int|
                0 <= m < k ==> (#[trigger] children@[m]).class_name@ != WORKER_CLASS@,
        decreases children@.len() - k,
    {
        if class_is(&children[k].class_name, WORKER_CLASS) {
            return Some(k);
        }
        k = k + 1;
    }
    None
}

/// Finds the worker window behind the desktop icons in a snapshot of the
/// top-level windows, in enumeration order, taken after the shell root was
/// asked to spawn it.  The first window hosting the icon view is located, and
/// the first worker window after it is the answer; where that yields nothing,
/// the first worker-class child of the shell root is.
pub fn locate_worker_window(windows: &Vec<TopLevelWindow>) -> (r: Result<isize, WallpaperError>)
    ensures
        r == Err::<isize, WallpaperError>(WallpaperError::ShellRootNotFound) <==> forall|i: int|
            0 <= i < windows@.len() ==> !is_root(#[trigger] windows@[i]),
        r == Err::<isize, WallpaperError>(WallpaperError::WorkerWindowNotFound) <==> (exists|i: int|
            0 <= i < windows@.len() && is_root(#[trigger] windows@[i]))
            && !has_worker_after_icon_view(windows@) && !has_worker_under_root(windows@),
        r matches Ok(h) ==> found_after_icon_view(windows@, h) || (!has_worker_after_icon_view(
            windows@,
        ) && found_under_root(windows@, h)),
        r is Err ==> r == Err::<isize, WallpaperError>(WallpaperError::ShellRootNotFound) || r == Err::<
            isize,
            WallpaperError,
        >(WallpaperError::WorkerWindowNotFound),
{
    let root = match root_index(windows) {
        Some(i) => i,
        None => {
            return Err(WallpaperError::ShellRootNotFound);
        },
    };
    assert(is_root(windows@[root as int]));
    if let Some(i) = icon_host_index(windows) {
        if let Some(j) = worker_index_after(windows, i) {
            return Ok(windows[j].handle);
        }
        assert(!has_worker_after_icon_view(windows@)) by {
            if exists|a: int, b: int| icon_host_at(windows@, a) && worker_after(windows@, a, b) {
                let (a, b) = choose|a: int, b: int|
                    icon_host_at(windows@, a) && worker_after(windows@, a, b);
                if a < i {
                    assert(!hosts_icon_view(windows@[a]));
                } else if a > i {
                    assert(!hosts_icon_view(windows@[i as int]));
                }
                assert(!is_worker(windows@[b]));
            }
        }
    }
    match worker_child_index(&windows[root].children) {
        Some(k) => Ok(windows[root].children[k].handle),
        None => {
            assert(!has_worker_under_root(windows@)) by {
                if exists|a: int, b: int|
                    root_at(windows@, a) && first_worker_child(windows@[a].children@, b) {
                    let (a, b) = choose|a: int, b: int|
                        root_at(windows@, a) && first_worker_child(windows@[a].children@, b);
                    if a < root {
                        assert(!is_root(windows@[a]));
                    } else if a > root {
                        assert(!is_root(windows@[root as int]));
                    }
                    assert(windows@[a].children@[b].class_name@ != WORKER_CLASS@);
                }
            }
            Err(WallpaperError::WorkerWindowNotFound)
        },
    }
}

} // verus!

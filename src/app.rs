use vstd::prelude::*;
use crate::errors::ConnectionToolsError;
use crate::socket::{
    clone_pids, split_sockets, tcp_entries, udp_entries, SocketInfo, SocketsContainer, TcpSocketInfo,
    UdpSocketInfo,
};
use crate::text::{tcp_line, tcp_socket_to_string, udp_line, udp_socket_to_string};

verus! {

/// Which protocol list receives cursor movement, ordered left to right.
#[derive(Debug, Clone, Copy, PartialEq, Eq, Structural)]
pub enum SelectedType {
    Nothing,
    Tcp,
    Udp,
}

impl SelectedType {
    pub open spec fn spec_left(self) -> SelectedType {
        match self {
            SelectedType::Nothing => SelectedType::Nothing,
            SelectedType::Tcp => SelectedType::Nothing,
            SelectedType::Udp => SelectedType::Tcp,
        }
    }

    pub open spec fn spec_right(self) -> SelectedType {
        match self {
            SelectedType::Nothing => SelectedType::Tcp,
            SelectedType::Tcp => SelectedType::Udp,
            SelectedType::Udp => SelectedType::Udp,
        }
    }

    /// Moves focus one step to the left, staying at `Nothing`.
    pub fn left(&self) -> (r: SelectedType)
        ensures
            r == self.spec_left(),
    {
        match self {
            SelectedType::Nothing => SelectedType::Nothing,
            SelectedType::Tcp => SelectedType::Nothing,
            SelectedType::Udp => SelectedType::Tcp,
        }
    }

    /// Moves focus one step to the right, staying at `Udp`.
    pub fn right(&self) -> (r: SelectedType)
        ensures
            r == self.spec_right(),
    {
        match self {
            SelectedType::Nothing => SelectedType::Tcp,
            SelectedType::Tcp => SelectedType::Udp,
            SelectedType::Udp => SelectedType::Udp,
        }
    }
}

/// Focus saturates at both ends, and one step right then left from `Nothing`
/// comes back to `Nothing`.
pub proof fn lemma_focus_saturates()
    ensures
        SelectedType::Nothing.spec_left() == SelectedType::Nothing,
        SelectedType::Udp.spec_right() == SelectedType::Udp,
        SelectedType::Nothing.spec_right().spec_left() == SelectedType::Nothing,
{
}

/// The cursor after one step up in a list of `len` rows: an unset cursor goes
/// to the first row, the first row wraps to the last; an empty list leaves
/// the cursor as it is.
pub open spec fn spec_up(current: Option<usize>, len: usize) -> Option<usize> {
    if len == 0 {
        current
    } else {
        match current {
            None => Some(0),
            Some(c) => if c > 0 {
                Some((c - 1) as usize)
            } else {
                Some((len - 1) as usize)
            },
        }
    }
}

/// The cursor after one step down in a list of `len` rows: an unset cursor
/// goes to the first row, the last row (or beyond) wraps to the first; an
/// empty list leaves the cursor as it is.
pub open spec fn spec_down(current: Option<usize>, len: usize) -> Option<usize> {
    if len == 0 {
        current
    } else {
        match current {
            None => Some(0),
            Some(c) => if c >= len - 1 {
                Some(0)
            } else {
                Some((c + 1) as usize)
            },
        }
    }
}

/// The cursor after `k` steps up.
pub open spec fn ups(current: Option<usize>, len: usize, k: nat) -> Option<usize>
    decreases k,
{
    if k == 0 {
        current
    } else {
        spec_up(ups(current, len, (k - 1) as nat), len)
    }
}

/// The cursor after `k` steps down.
pub open spec fn downs(current: Option<usize>, len: usize, k: nat) -> Option<usize>
    decreases k,
{
    if k == 0 {
        current
    } else {
        spec_down(downs(current, len, (k - 1) as nat), len)
    }
}

proof fn lemma_downs_step(c: usize, len: usize, k: nat)
    requires
        c < len,
        k <= len,
    ensures
        downs(Some(c), len, k) == Some(
            (if c + k < len {
                c + k
            } else {
                c + k - len
            }) as usize,
        ),
    decreases k,
{
    if k > 0 {
        lemma_downs_step(c, len, (k - 1) as nat);
    }
}

proof fn lemma_ups_step(c: usize, len: usize, k: nat)
    requires
        c < len,
        k <= len,
    ensures
        ups(Some(c), len, k) == Some(
            (if k <= c {
                c - k
            } else {
                c + len - k
            }) as usize,
        ),
    decreases k,
{
    if k > 0 {
        lemma_ups_step(c, len, (k - 1) as nat);
    }
}

/// In a list of `len` rows, `len` steps down, or `len` steps up, bring a
/// cursor on a row back to that row.
pub proof fn lemma_cursor_wraps(c: usize, len: usize)
    requires
        c < len,
    ensures
        downs(Some(c), len, len as nat) == Some(c),
        ups(Some(c), len, len as nat) == Some(c),
{
    lemma_downs_step(c, len, len as nat);
    lemma_ups_step(c, len, len as nat);
}

/// The cursor after one step up.
pub fn up_select_counter(current: &Option<usize>, base_collection_len: &usize) -> (r: Option<
    usize,
>)
    ensures
        r == spec_up(*current, *base_collection_len),
{
    if *base_collection_len == 0 {
        *current
    } else {
        match current {
            Some(c) => if *c > 0 {
                Some(*c - 1)
            } else {
                Some(*base_collection_len - 1)
            },
            None => Some(0),
        }
    }
}

/// The cursor after one step down.
pub fn down_select_counter(current: &Option<usize>, base_collection_len: &usize) -> (r: Option<
    usize,
>)
    ensures
        r == spec_down(*current, *base_collection_len),
{
    if *base_collection_len == 0 {
        *current
    } else {
        match current {
            Some(c) => if *c >= *base_collection_len - 1 {
                Some(0)
            } else {
                Some(*c + 1)
            },
            None => Some(0),
        }
    }
}

/// The text of each string.
pub open spec fn strings_view(v: Seq<String>) -> Seq<Seq<char>> {
    v.map_values(|s: String| s@)
}

/// The display lines of TCP entries, one per entry.
pub open spec fn tcp_display_of(e: Seq<(TcpSocketInfo, Seq<u32>)>) -> Seq<Seq<char>> {
    e.map_values(|p: (TcpSocketInfo, Seq<u32>)| tcp_line(p.0, p.1))
}

/// The display lines of UDP entries, one per entry.
pub open spec fn udp_display_of(e: Seq<(UdpSocketInfo, Seq<u32>)>) -> Seq<Seq<char>> {
    e.map_values(|p: (UdpSocketInfo, Seq<u32>)| udp_line(p.0, p.1))
}

/// The row a cursor stands for in a list of `len > 0` rows: the first row
/// when unset, the last row when it lies beyond the list.
pub open spec fn clamped(cursor: Option<usize>, len: int) -> int {
    match cursor {
        None => 0,
        Some(i) => if i < len {
            i as int
        } else {
            len - 1
        },
    }
}

/// Joins the process details, with a placeholder for each process that
/// could not be looked up.
pub open spec fn details_text(d: Seq<Option<String>>) -> Seq<char>
    decreases d.len(),
{
    if d.len() == 0 {
        Seq::empty()
    } else {
        details_text(d.drop_last()) + match d.last() {
            Some(t) => t@,
            None => "process info not available"@,
        }
    }
}

/// The state of the dashboard: the last snapshot (or why there is none), its
/// display lines, the focus and one cursor per protocol.
pub struct App {
    pub sockets_info_res: Result<SocketsContainer, ConnectionToolsError>,
    pub tcp_sockets: Vec<String>,
    pub udp_sockets: Vec<String>,
    pub tcp_sockets_count: usize,
    pub udp_sockets_count: usize,
    pub selected_type: SelectedType,
    pub tcp_selection: Option<usize>,
    pub udp_selection: Option<usize>,
    pub should_quit: bool,
}

impl App {
    /// The last refresh outcome.
    pub open spec fn snapshot(&self) -> Result<SocketsContainer, ConnectionToolsError> {
        self.sockets_info_res
    }

    /// The cursor of the TCP list, focused or not.
    pub open spec fn tcp_cursor(&self) -> Option<usize> {
        self.tcp_selection
    }

    /// The cursor of the UDP list, focused or not.
    pub open spec fn udp_cursor(&self) -> Option<usize> {
        self.udp_selection
    }

    /// The TCP entries of the last snapshot, none after a failure.
    pub open spec fn tcp_entries(&self) -> Seq<(TcpSocketInfo, Seq<u32>)> {
        match self.snapshot() {
            Ok(c) => c.tcp_view(),
            Err(_) => Seq::empty(),
        }
    }

    /// The UDP entries of the last snapshot, none after a failure.
    pub open spec fn udp_entries(&self) -> Seq<(UdpSocketInfo, Seq<u32>)> {
        match self.snapshot() {
            Ok(c) => c.udp_view(),
            Err(_) => Seq::empty(),
        }
    }

    /// The display lines and counts agree with the snapshot.
    pub open spec fn wf(&self) -> bool {
        &&& strings_view(self.tcp_sockets@) == tcp_display_of(self.tcp_entries())
        &&& strings_view(self.udp_sockets@) == udp_display_of(self.udp_entries())
        &&& self.tcp_sockets_count == self.tcp_entries().len()
        &&& self.udp_sockets_count == self.udp_entries().len()
    }

    /// Only the cursors differ between `self` and `other`.
    pub open spec fn same_but_cursors(&self, other: &App) -> bool {
        &&& self.snapshot() == other.snapshot()
        &&& self.tcp_sockets == other.tcp_sockets
        &&& self.udp_sockets == other.udp_sockets
        &&& self.tcp_sockets_count == other.tcp_sockets_count
        &&& self.udp_sockets_count == other.udp_sockets_count
        &&& self.should_quit == other.should_quit
    }

    /// Only the focus differs between `self` and `other`.
    pub open spec fn same_but_focus(&self, other: &App) -> bool {
        &&& self.same_but_cursors(other)
        &&& self.tcp_cursor() == other.tcp_cursor()
        &&& self.udp_cursor() == other.udp_cursor()
    }

    /// The row count of the focused list; zero when nothing is focused.
    pub open spec fn focused_count(&self) -> usize {
        match self.selected_type {
            SelectedType::Nothing => 0,
            SelectedType::Tcp => self.tcp_sockets_count,
            SelectedType::Udp => self.udp_sockets_count,
        }
    }

    /// A dashboard with an empty snapshot, no focus and no cursors.
    pub fn new() -> (r: App)
        ensures
            r.wf(),
            r.snapshot() is Ok,
            r.tcp_entries().len() == 0,
            r.udp_entries().len() == 0,
            r.selected_type == SelectedType::Nothing,
            r.tcp_cursor() is None,
            r.udp_cursor() is None,
            !r.should_quit,
    {
        let r = App {
            sockets_info_res: Ok(SocketsContainer::new()),
            tcp_sockets: Vec::new(),
            udp_sockets: Vec::new(),
            tcp_sockets_count: 0,
            udp_sockets_count: 0,
            selected_type: SelectedType::Nothing,
            tcp_selection: None,
            udp_selection: None,
            should_quit: false,
        };
        assert(strings_view(r.tcp_sockets@) =~= tcp_display_of(r.tcp_entries()));
        assert(strings_view(r.udp_sockets@) =~= udp_display_of(r.udp_entries()));
        r
    }

    /// Replaces the snapshot with the outcome of one enumeration of the
    /// sockets, and rebuilds the display lines and counts from it. After a
    /// failure the lists are empty. Focus and cursors are kept.
    pub fn update_sockets(&mut self, sockets_info: Result<Vec<SocketInfo>, String>)
        ensures
            final(self).wf(),
            match sockets_info {
                Ok(v) => {
                    &&& final(self).snapshot() is Ok
                    &&& final(self).tcp_entries() == tcp_entries(v@)
                    &&& final(self).udp_entries() == udp_entries(v@)
                },
                Err(m) => {
                    &&& final(self).snapshot() == Err::<SocketsContainer, ConnectionToolsError>(
                        ConnectionToolsError::FailToGetSocketsInfo { message: m },
                    )
                    &&& final(self).tcp_sockets@.len() == 0
                    &&& final(self).udp_sockets@.len() == 0
                    &&& final(self).tcp_sockets_count == 0
                    &&& final(self).udp_sockets_count == 0
                },
            },
            final(self).selected_type == old(self).selected_type,
            final(self).tcp_cursor() == old(self).tcp_cursor(),
            final(self).udp_cursor() == old(self).udp_cursor(),
            final(self).should_quit == old(self).should_quit,
    {
        match sockets_info {
            Ok(v) => {
                let c = split_sockets(v);
                let tcp = tcp_lines(&c);
                let udp = udp_lines(&c);
                self.tcp_sockets_count = c.tcp_sockets.len();
                self.udp_sockets_count = c.udp_sockets.len();
                self.tcp_sockets = tcp;
                self.udp_sockets = udp;
                self.sockets_info_res = Ok(c);
            },
            Err(message) => {
                self.sockets_info_res = Err(
                    ConnectionToolsError::FailToGetSocketsInfo { message },
                );
                self.tcp_sockets = Vec::new();
                self.udp_sockets = Vec::new();
                self.tcp_sockets_count = 0;
                self.udp_sockets_count = 0;
                assert(strings_view(self.tcp_sockets@) =~= tcp_display_of(self.tcp_entries()));
                assert(strings_view(self.udp_sockets@) =~= udp_display_of(self.udp_entries()));
            },
        }
    }

    /// Moves the cursor of the focused list one row up; nothing moves when no
    /// list is focused or the focused list is empty.
    pub fn on_up(&mut self)
        ensures
            final(self).same_but_cursors(old(self)),
            final(self).selected_type == old(self).selected_type,
            final(self).tcp_cursor() == (if old(self).selected_type == SelectedType::Tcp {
                spec_up(old(self).tcp_cursor(), old(self).tcp_sockets_count)
            } else {
                old(self).tcp_cursor()
            }),
            final(self).udp_cursor() == (if old(self).selected_type == SelectedType::Udp {
                spec_up(old(self).udp_cursor(), old(self).udp_sockets_count)
            } else {
                old(self).udp_cursor()
            }),
            old(self).focused_count() == 0 ==> {
                &&& final(self).tcp_cursor() == old(self).tcp_cursor()
                &&& final(self).udp_cursor() == old(self).udp_cursor()
            },
    {
        match self.selected_type {
            SelectedType::Nothing => {},
            SelectedType::Tcp => {
                self.tcp_selection = up_select_counter(&self.tcp_selection, &self.tcp_sockets_count);
            },
            SelectedType::Udp => {
                self.udp_selection = up_select_counter(&self.udp_selection, &self.udp_sockets_count);
            },
        }
    }

    /// Moves the cursor of the focused list one row down; nothing moves when
    /// no list is focused or the focused list is empty.
    pub fn on_down(&mut self)
        ensures
            final(self).same_but_cursors(old(self)),
            final(self).selected_type == old(self).selected_type,
            final(self).tcp_cursor() == (if old(self).selected_type == SelectedType::Tcp {
                spec_down(old(self).tcp_cursor(), old(self).tcp_sockets_count)
            } else {
                old(self).tcp_cursor()
            }),
            final(self).udp_cursor() == (if old(self).selected_type == SelectedType::Udp {
                spec_down(old(self).udp_cursor(), old(self).udp_sockets_count)
            } else {
                old(self).udp_cursor()
            }),
            old(self).focused_count() == 0 ==> {
                &&& final(self).tcp_cursor() == old(self).tcp_cursor()
                &&& final(self).udp_cursor() == old(self).udp_cursor()
            },
    {
        match self.selected_type {
            SelectedType::Nothing => {},
            SelectedType::Tcp => {
                self.tcp_selection = down_select_counter(
                    &self.tcp_selection,
                    &self.tcp_sockets_count,
                );
            },
            SelectedType::Udp => {
                self.udp_selection = down_select_counter(
                    &self.udp_selection,
                    &self.udp_sockets_count,
                );
            },
        }
    }

    /// The TCP cursor, reported only while the TCP list is focused.
    pub fn selected_tcp(&self) -> (r: Option<usize>)
        ensures
            r == (if self.selected_type == SelectedType::Tcp {
                self.tcp_cursor()
            } else {
                None
            }),
    {
        match self.selected_type {
            SelectedType::Tcp => self.tcp_selection,
            _ => None,
        }
    }

    /// The UDP cursor, reported only while the UDP list is focused.
    pub fn selected_udp(&self) -> (r: Option<usize>)
        ensures
            r == (if self.selected_type == SelectedType::Udp {
                self.udp_cursor()
            } else {
                None
            }),
    {
        match self.selected_type {
            SelectedType::Udp => self.udp_selection,
            _ => None,
        }
    }

    /// Moves focus one step to the right.
    pub fn on_right(&mut self)
        ensures
            final(self).same_but_focus(old(self)),
            final(self).selected_type == old(self).selected_type.spec_right(),
    {
        self.selected_type = self.selected_type.right();
    }

    /// Moves focus one step to the left.
    pub fn on_left(&mut self)
        ensures
            final(self).same_but_focus(old(self)),
            final(self).selected_type == old(self).selected_type.spec_left(),
    {
        self.selected_type = self.selected_type.left();
    }

    /// Handles a character key: `q` asks the event loop to stop.
    pub fn on_key(&mut self, c: char)
        ensures
            final(self).selected_type == old(self).selected_type,
            final(self).should_quit == (old(self).should_quit || c == 'q'),
            final(self).snapshot() == old(self).snapshot(),
            final(self).tcp_sockets == old(self).tcp_sockets,
            final(self).udp_sockets == old(self).udp_sockets,
            final(self).tcp_sockets_count == old(self).tcp_sockets_count,
            final(self).udp_sockets_count == old(self).udp_sockets_count,
            final(self).tcp_cursor() == old(self).tcp_cursor(),
            final(self).udp_cursor() == old(self).udp_cursor(),
    {
        if c == 'q' {
            self.should_quit = true;
        }
    }

    /// The owners of the selected socket of the focused list: none when
    /// nothing is focused, after a failed refresh, or when the list is empty.
    pub open spec fn selected_owners(&self) -> Option<Seq<u32>> {
        match self.selected_type {
            SelectedType::Nothing => None,
            SelectedType::Tcp => match self.snapshot() {
                Err(_) => None,
                Ok(c) => if c.tcp_view().len() == 0 {
                    None
                } else {
                    Some(c.tcp_view()[clamped(self.tcp_cursor(), c.tcp_view().len() as int)].1)
                },
            },
            SelectedType::Udp => match self.snapshot() {
                Err(_) => None,
                Ok(c) => if c.udp_view().len() == 0 {
                    None
                } else {
                    Some(c.udp_view()[clamped(self.udp_cursor(), c.udp_view().len() as int)].1)
                },
            },
        }
    }

    /// The detail text for the focused list, given the looked-up details of
    /// the selected socket's owners.
    pub open spec fn info_text(&self, details: Seq<Option<String>>) -> Seq<char> {
        match self.selected_type {
            SelectedType::Nothing => "choose socket with arrow keys"@,
            _ => if self.snapshot() is Err {
                "fail to get sockets info"@
            } else if self.selected_owners() is None {
                "no sockets to choose from"@
            } else {
                details_text(details)
            },
        }
    }

    /// The ids of the processes that own the selected socket of the focused
    /// list, in the order of the snapshot; an unset cursor stands for the
    /// first row and one beyond the list for the last.
    pub fn selected_pids(&self) -> (r: Option<Vec<u32>>)
        ensures
            match r {
                Some(v) => self.selected_owners() == Some(v@),
                None => self.selected_owners() is None,
            },
    {
        match self.selected_type {
            SelectedType::Nothing => None,
            SelectedType::Tcp => match &self.sockets_info_res {
                Err(_) => None,
                Ok(c) => {
                    let len = c.tcp_sockets.len();
                    if len == 0 {
                        None
                    } else {
                        let i = clamp_cursor(self.tcp_selection, len);
                        Some(clone_pids(&c.tcp_sockets[i].1))
                    }
                },
            },
            SelectedType::Udp => match &self.sockets_info_res {
                Err(_) => None,
                Ok(c) => {
                    let len = c.udp_sockets.len();
                    if len == 0 {
                        None
                    } else {
                        let i = clamp_cursor(self.udp_selection, len);
                        Some(clone_pids(&c.udp_sockets[i].1))
                    }
                },
            },
        }
    }

    /// The detail text shown beside the lists. `process_details` holds, for
    /// each id that `selected_pids` gave, the text about that process, or
    /// `None` where it could not be looked up.
    pub fn selected_socket_info(&self, process_details: &Vec<Option<String>>) -> (r: String)
        ensures
            r@ == self.info_text(process_details@),
    {
        match self.selected_type {
            SelectedType::Nothing => String::from_str("choose socket with arrow keys"),
            _ => {
                if self.sockets_info_res.is_err() {
                    String::from_str("fail to get sockets info")
                } else {
                    match self.selected_pids() {
                        None => String::from_str("no sockets to choose from"),
                        Some(_) => join_details(process_details),
                    }
                }
            },
        }
    }

    /// Handles a tick: takes in the outcome of a new enumeration.
    pub fn on_tick(&mut self, sockets_info: Result<Vec<SocketInfo>, String>)
        ensures
            final(self).wf(),
            match sockets_info {
                Ok(v) => {
                    &&& final(self).snapshot() is Ok
                    &&& final(self).tcp_entries() == tcp_entries(v@)
                    &&& final(self).udp_entries() == udp_entries(v@)
                },
                Err(m) => {
                    &&& final(self).snapshot() == Err::<SocketsContainer, ConnectionToolsError>(
                        ConnectionToolsError::FailToGetSocketsInfo { message: m },
                    )
                    &&& final(self).tcp_sockets@.len() == 0
                    &&& final(self).udp_sockets@.len() == 0
                    &&& final(self).tcp_sockets_count == 0
                    &&& final(self).udp_sockets_count == 0
                },
            },
            final(self).selected_type == old(self).selected_type,
            final(self).tcp_cursor() == old(self).tcp_cursor(),
            final(self).udp_cursor() == old(self).udp_cursor(),
            final(self).should_quit == old(self).should_quit,
    {
        self.update_sockets(sockets_info);
    }
}

fn clamp_cursor(cursor: Option<usize>, len: usize) -> (r: usize)
    requires
        len > 0,
    ensures
        r == clamped(cursor, len as int),
{
    match cursor {
        None => 0,
        Some(i) => if i < len {
            i
        } else {
            len - 1
        },
    }
}

fn join_details(details: &Vec<Option<String>>) -> (r: String)
    ensures
        r@ == details_text(details@),
{
    let mut r = String::new();
    let mut i: usize = 0;
    while i < details.len()
        invariant
            i <= details@.len(),
            r@ == details_text(details@.take(i as int)),
        decreases details@.len() - i,
    {
        match &details[i] {
            Some(t) => r.append(t.as_str()),
            None => r.append("process info not available"),
        }
        assert(details@.take(i + 1).drop_last() =~= details@.take(i as int));
        i = i + 1;
    }
    assert(details@.take(i as int) =~= details@);
    r
}

fn tcp_lines(c: &SocketsContainer) -> (r: Vec<String>)
    ensures
        strings_view(r@) == tcp_display_of(c.tcp_view()),
{
    let mut r: Vec<String> = Vec::with_capacity(c.tcp_sockets.len());
    let mut i: usize = 0;
    while i < c.tcp_sockets.len()
        invariant
            i <= c.tcp_sockets@.len(),
            strings_view(r@) == tcp_display_of(c.tcp_view().take(i as int)),
        decreases c.tcp_sockets@.len() - i,
    {
        let e = &c.tcp_sockets[i];
        let ghost prev = r@;
        r.push(tcp_socket_to_string(&e.0, &e.1));
        assert(c.tcp_view()[i as int] == (e.0, e.1@));
        assert(strings_view(r@) =~= strings_view(prev).push(tcp_line(e.0, e.1@)));
        assert(tcp_display_of(c.tcp_view().take(i + 1)) =~= tcp_display_of(
            c.tcp_view().take(i as int),
        ).push(tcp_line(e.0, e.1@)));
        i = i + 1;
        assert(strings_view(r@) =~= tcp_display_of(c.tcp_view().take(i as int)));
    }
    assert(c.tcp_view().take(i as int) =~= c.tcp_view());
    r
}

fn udp_lines(c: &SocketsContainer) -> (r: Vec<String>)
    ensures
        strings_view(r@) == udp_display_of(c.udp_view()),
{
    let mut r: Vec<String> = Vec::with_capacity(c.udp_sockets.len());
    let mut i: usize = 0;
    while i < c.udp_sockets.len()
        invariant
            i <= c.udp_sockets@.len(),
            strings_view(r@) == udp_display_of(c.udp_view().take(i as int)),
        decreases c.udp_sockets@.len() - i,
    {
        let e = &c.udp_sockets[i];
        let ghost prev = r@;
        r.push(udp_socket_to_string(&e.0, &e.1));
        assert(c.udp_view()[i as int] == (e.0, e.1@));
        assert(strings_view(r@) =~= strings_view(prev).push(udp_line(e.0, e.1@)));
        assert(udp_display_of(c.udp_view().take(i + 1)) =~= udp_display_of(
            c.udp_view().take(i as int),
        ).push(udp_line(e.0, e.1@)));
        i = i + 1;
        assert(strings_view(r@) =~= udp_display_of(c.udp_view().take(i as int)));
    }
    assert(c.udp_view().take(i as int) =~= c.udp_view());
    r
}

} // verus!

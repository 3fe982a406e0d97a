//! What the configuration script hands to the display server.

use crate::geometry::{min_int, Point, Rectangle, Size};
use crate::state::{Output, State, Zone};
use vstd::prelude::*;

verus! {

/// The modifier keys of a key binding.
#[derive(Clone, Copy, Debug, PartialEq, Eq, Structural)]
pub struct Mods {
    pub shift: bool,
    pub logo: bool,
    pub ctrl: bool,
    pub alt: bool,
}

/// A key with its modifiers and the callback to run for it.
#[derive(Clone, Copy, Debug, PartialEq, Eq, Structural)]
pub struct ConfigMapKey {
    /// The key symbol.
    pub key: u32,
    pub mods: Mods,
    /// The handle of the script's callback.
    pub callback: u64,
}

/// The callbacks and key bindings that the script has registered.
#[derive(Clone, Debug, PartialEq, Eq)]
pub struct Config {
    pub on_startup: Option<u64>,
    pub on_connector_change: Option<u64>,
    pub bindings: Vec<ConfigMapKey>,
}

/// A zone as the script declares it.
#[derive(Clone, Debug, PartialEq, Eq)]
pub struct ConfigZone {
    pub name: String,
    pub x: i32,
    pub y: i32,
    pub width: i32,
    pub height: i32,
    pub default: bool,
}

/// An output as the script sees and declares it.
#[derive(Clone, Debug, PartialEq, Eq)]
pub struct ConfigOutput {
    pub name: String,
    pub x: i32,
    pub y: i32,
    pub width: i32,
    pub height: i32,
    pub default: bool,
    pub disabled: bool,
    pub scale: i32,
}

impl Config {
    /// Nothing registered.
    pub fn new() -> (c: Config)
        ensures
            c.on_startup is None,
            c.on_connector_change is None,
            c.bindings.len() == 0,
    {
        Config { on_startup: None, on_connector_change: None, bindings: Vec::new() }
    }
}

impl ConfigZone {
    /// The zone that the declaration makes.
    pub open spec fn zone(self) -> Zone {
        Zone {
            name: self.name,
            geometry: Rectangle {
                loc: Point { x: self.x, y: self.y },
                size: Size { w: self.width, h: self.height },
            },
            default: self.default,
        }
    }

    /// The zone that the declaration makes.
    pub fn to_zone(&self) -> (z: Zone)
        ensures
            z == self.zone(),
    {
        Zone {
            name: self.name.clone(),
            geometry: Rectangle::from_xywh(self.x, self.y, self.width, self.height),
            default: self.default,
        }
    }
}

impl ConfigOutput {
    /// What the script is told of `output`.
    pub open spec fn of(output: Output) -> ConfigOutput {
        ConfigOutput {
            name: output.name,
            x: output.location.x,
            y: output.location.y,
            width: output.size.w,
            height: output.size.h,
            default: true,
            disabled: false,
            scale: output.scale,
        }
    }

    /// What the script is told of `output`.
    pub fn from(output: &Output) -> (c: ConfigOutput)
        ensures
            c == ConfigOutput::of(*output),
    {
        ConfigOutput {
            name: output.name.clone(),
            x: output.location.x,
            y: output.location.y,
            width: output.size.w,
            height: output.size.h,
            default: true,
            disabled: false,
            scale: output.scale,
        }
    }
}

/// Some zone among `zones` is called `name`.
pub open spec fn names_zone(zones: Seq<Zone>, name: Seq<char>) -> bool {
    exists|i: int| 0 <= i < zones.len() && zones[i].name@ == name
}

/// The zones that the first `n` declarations make: each declaration in turn,
/// but those whose name an earlier one has taken.
pub open spec fn accepted_zones(declared: Seq<ConfigZone>, n: int) -> Seq<Zone>
    decreases n,
{
    if n <= 0 {
        Seq::empty()
    } else {
        let before = accepted_zones(declared, n - 1);
        if names_zone(before, declared[n - 1].name@) {
            before
        } else {
            before.push(declared[n - 1].zone())
        }
    }
}

impl State {
    /// The callback to run at startup.
    pub fn on_startup(&self) -> (callback: Option<u64>)
        ensures
            callback == self.config.on_startup,
    {
        self.config.on_startup
    }

    /// The callback to run when a connector changed, with what it is told:
    /// every output of the registry, in order.
    pub fn on_connector_change(&self) -> (r: Option<(u64, Vec<ConfigOutput>)>)
        ensures
            match r {
                Some((callback, outputs)) => {
                    &&& self.config.on_connector_change == Some(callback)
                    &&& outputs.len() == self.outputs.len()
                    &&& forall|i: int|
                        0 <= i < outputs.len() ==> #[trigger] outputs[i] == ConfigOutput::of(
                            self.outputs[i],
                        )
                },
                None => self.config.on_connector_change is None,
            },
    {
        let callback = match self.config.on_connector_change {
            Some(c) => c,
            None => {
                return None;
            },
        };
        let mut outputs: Vec<ConfigOutput> = Vec::new();
        let mut i: usize = 0;
        while i < self.outputs.len()
            invariant
                i <= self.outputs.len(),
                outputs.len() == i,
                forall|k: int|
                    0 <= k < i ==> #[trigger] outputs[k] == ConfigOutput::of(self.outputs[k]),
            decreases self.outputs.len() - i,
        {
            outputs.push(ConfigOutput::from(&self.outputs[i]));
            i += 1;
        }
        Some((callback, outputs))
    }

    /// Registers the callback to run at startup.
    pub fn set_on_startup(&mut self, callback: u64)
        ensures
            final(self).config.on_startup == Some(callback),
            final(self).config.on_connector_change == old(self).config.on_connector_change,
            final(self).config.bindings == old(self).config.bindings,
            final(self).spaces == old(self).spaces,
            final(self).windows == old(self).windows,
            final(self).outputs == old(self).outputs,
            final(self).surfaces == old(self).surfaces,
            final(self).seat == old(self).seat,
            final(self).selections == old(self).selections,
            final(self).running == old(self).running,
    {
        self.config.on_startup = Some(callback);
    }

    /// Registers the callback to run when a connector changes.
    pub fn set_on_connector_change(&mut self, callback: u64)
        ensures
            final(self).config.on_connector_change == Some(callback),
            final(self).config.on_startup == old(self).config.on_startup,
            final(self).config.bindings == old(self).config.bindings,
            final(self).spaces == old(self).spaces,
            final(self).windows == old(self).windows,
            final(self).outputs == old(self).outputs,
            final(self).surfaces == old(self).surfaces,
            final(self).seat == old(self).seat,
            final(self).selections == old(self).selections,
            final(self).running == old(self).running,
    {
        self.config.on_connector_change = Some(callback);
    }

    /// Registers a key binding, after those that are there.
    pub fn map_key(&mut self, binding: ConfigMapKey)
        ensures
            final(self).config.bindings@ == old(self).config.bindings@.push(binding),
            final(self).config.on_startup == old(self).config.on_startup,
            final(self).config.on_connector_change == old(self).config.on_connector_change,
            final(self).spaces == old(self).spaces,
            final(self).windows == old(self).windows,
            final(self).outputs == old(self).outputs,
            final(self).surfaces == old(self).surfaces,
            final(self).seat == old(self).seat,
            final(self).selections == old(self).selections,
            final(self).running == old(self).running,
    {
        self.config.bindings.push(binding);
    }

    /// The callback bound to the key `key` with the modifiers `mods`: that of
    /// the first binding for them.
    pub fn binding_for(&self, key: u32, mods: Mods) -> (callback: Option<u64>)
        ensures
            match callback {
                Some(c) => exists|i: int|
                    {
                        &&& 0 <= i < self.config.bindings.len()
                        &&& #[trigger] self.config.bindings[i].key == key
                        &&& self.config.bindings[i].mods == mods
                        &&& self.config.bindings[i].callback == c
                        &&& forall|k: int|
                            0 <= k < i ==> !(self.config.bindings[k].key == key
                                && self.config.bindings[k].mods == mods)
                    },
                None => forall|k: int|
                    0 <= k < self.config.bindings.len() ==> !(self.config.bindings[k].key == key
                        && self.config.bindings[k].mods == mods),
            },
    {
        let mut i: usize = 0;
        while i < self.config.bindings.len()
            invariant
                i <= self.config.bindings.len(),
                forall|k: int|
                    0 <= k < i ==> !(self.config.bindings[k].key == key
                        && self.config.bindings[k].mods == mods),
            decreases self.config.bindings.len() - i,
        {
            let b = self.config.bindings[i];
            if b.key == key && b.mods == mods {
                return Some(b.callback);
            }
            i += 1;
        }
        None
    }

    /// Gives the first space the zones that the script declares. A
    /// declaration whose name an earlier one has taken is skipped; the others
    /// go on. Returns how many were skipped.
    pub fn set_zones(&mut self, zones: &Vec<ConfigZone>) -> (skipped: usize)
        requires
            old(self).wf(),
        ensures
            final(self).wf(),
            final(self).spaces.len() == old(self).spaces.len(),
            final(self).spaces[0].name == old(self).spaces[0].name,
            final(self).spaces[0].zones@ == accepted_zones(zones@, zones.len() as int),
            skipped == zones.len() - final(self).spaces[0].zones.len(),
            forall|s: int|
                1 <= s < old(self).spaces.len() ==> final(self).spaces[s] == old(self).spaces[s],
            final(self).windows == old(self).windows,
            final(self).outputs == old(self).outputs,
            final(self).surfaces == old(self).surfaces,
            old(self).same_rest(*final(self)),
    {
        let mut accepted: Vec<Zone> = Vec::new();
        let mut skipped: usize = 0;
        let mut i: usize = 0;
        while i < zones.len()
            invariant
                i <= zones.len(),
                accepted@ == accepted_zones(zones@, i as int),
                skipped + accepted.len() == i,
                forall|a: int, b: int|
                    0 <= a < b < accepted.len() ==> accepted[a].name@ != accepted[b].name@,
            decreases zones.len() - i,
        {
            if zone_named(&accepted, &zones[i].name) {
                skipped += 1;
            } else {
                accepted.push(zones[i].to_zone());
            }
            i += 1;
        }
        self.spaces[0].zones = accepted;
        skipped
    }
}

/// Whether some zone among `zones` is called `name`.
pub fn zone_named(zones: &Vec<Zone>, name: &String) -> (r: bool)
    ensures
        r == names_zone(zones@, name@),
{
    let mut i: usize = 0;
    while i < zones.len()
        invariant
            i <= zones.len(),
            forall|k: int| 0 <= k < i ==> zones[k].name@ != name@,
        decreases zones.len() - i,
    {
        if zones[i].name == *name {
            return true;
        }
        i += 1;
    }
    false
}

/// The outputs that the script wants in one space.
#[derive(Clone, Debug, PartialEq, Eq)]
pub struct ConfigSpace {
    pub name: String,
    pub outputs: Vec<ConfigOutput>,
}

/// The layout that the script declares: space by space.
#[derive(Clone, Debug, PartialEq, Eq)]
pub struct ConfigLayout {
    pub spaces: Vec<ConfigSpace>,
}

/// The last of the first `n` declarations that names the output `name`.
pub open spec fn last_entry(declared: Seq<ConfigOutput>, name: Seq<char>, n: int) -> Option<int>
    decreases n,
{
    if n <= 0 {
        None
    } else if declared[n - 1].name@ == name {
        Some(n - 1)
    } else {
        last_entry(declared, name, n - 1)
    }
}

/// Some output among `outputs` is called `name`.
pub open spec fn names_output(outputs: Seq<Output>, name: Seq<char>) -> bool {
    exists|k: int| 0 <= k < outputs.len() && outputs[k].name@ == name
}

/// How many of the first `n` declarations name an output that is not among
/// `outputs`.
pub open spec fn unknown_count(outputs: Seq<Output>, declared: Seq<ConfigOutput>, n: int) -> nat
    decreases n,
{
    if n <= 0 {
        0
    } else {
        unknown_count(outputs, declared, n - 1) + if names_output(
            outputs,
            declared[n - 1].name@,
        ) {
            0nat
        } else {
            1nat
        }
    }
}

/// How many declarations of the first `n` layouts name an output that is not
/// among `outputs`.
pub open spec fn unknown_total(outputs: Seq<Output>, entries: Seq<ConfigSpace>, n: int) -> nat
    decreases n,
{
    if n <= 0 {
        0
    } else {
        unknown_total(outputs, entries, n - 1) + unknown_count(
            outputs,
            entries[n - 1].outputs@,
            entries[n - 1].outputs.len() as int,
        )
    }
}

/// The outputs `b` are called as the outputs `a` are, one by one.
pub open spec fn same_names(a: Seq<Output>, b: Seq<Output>) -> bool {
    a.len() == b.len() && forall|k: int| 0 <= k < a.len() ==> a[k].name@ == b[k].name@
}

/// Which declarations name no output depends on the names of the outputs
/// alone.
pub proof fn lemma_unknown_by_names(
    a: Seq<Output>,
    b: Seq<Output>,
    declared: Seq<ConfigOutput>,
    n: int,
)
    requires
        same_names(a, b),
        0 <= n <= declared.len(),
    ensures
        unknown_count(a, declared, n) == unknown_count(b, declared, n),
    decreases n,
{
    if n > 0 {
        lemma_unknown_by_names(a, b, declared, n - 1);
        let name = declared[n - 1].name@;
        if names_output(a, name) {
            let k = choose|k: int| 0 <= k < a.len() && a[k].name@ == name;
            assert(b[k].name@ == name);
        }
        if names_output(b, name) {
            let k = choose|k: int| 0 <= k < b.len() && b[k].name@ == name;
            assert(a[k].name@ == name);
        }
    }
}

/// Output `k` is the first of `outputs` with its name.
pub open spec fn first_named(outputs: Seq<Output>, k: int) -> bool {
    forall|j: int| 0 <= j < k ==> outputs[j].name@ != outputs[k].name@
}

/// An output after the first `n` declarations for space `s` were applied:
/// the first output of a name has the place and scale of the last declaration
/// that names it, and belongs to the space.
pub open spec fn declared_output(
    outputs: Seq<Output>,
    declared: Seq<ConfigOutput>,
    s: usize,
    k: int,
    n: int,
) -> Output {
    match last_entry(declared, outputs[k].name@, n) {
        Some(j) => if first_named(outputs, k) {
            Output {
                location: Point { x: declared[j].x, y: declared[j].y },
                scale: declared[j].scale,
                space: Some(s),
                ..outputs[k]
            }
        } else {
            outputs[k]
        },
        None => outputs[k],
    }
}

/// An output after the layout of space `s` was declared: as the
/// declarations leave it, and out of the space where none names it.
pub open spec fn laid_output(
    outputs: Seq<Output>,
    declared: Seq<ConfigOutput>,
    s: usize,
    k: int,
) -> Output {
    if last_entry(declared, outputs[k].name@, declared.len() as int) is None && outputs[k].space
        == Some(s) {
        Output { space: None, ..outputs[k] }
    } else {
        declared_output(outputs, declared, s, k, declared.len() as int)
    }
}

/// A name that no declaration bears is the name of no last declaration, and
/// the other way round.
pub proof fn lemma_last_entry_none(declared: Seq<ConfigOutput>, name: Seq<char>, n: int)
    requires
        0 <= n <= declared.len(),
    ensures
        last_entry(declared, name, n) is None <==> forall|j: int|
            0 <= j < n ==> declared[j].name@ != name,
        last_entry(declared, name, n) matches Some(j) ==> 0 <= j < n && declared[j].name@ == name,
    decreases n,
{
    if n > 0 {
        lemma_last_entry_none(declared, name, n - 1);
    }
}

impl State {
    /// `post` is `self` after the layout `entry` of one space was declared:
    /// the space exists, each output is as the declarations for it say, and
    /// the outputs of the space that no declaration names have left it.
    pub open spec fn space_laid(self, post: State, entry: ConfigSpace) -> bool {
        exists|s: int|
            {
                &&& #[trigger] self.space_added(post.spaces@, entry.name@, s)
                &&& post.outputs.len() == self.outputs.len()
                &&& forall|k: int|
                    0 <= k < self.outputs.len() ==> #[trigger] post.outputs[k] == laid_output(
                        self.outputs@,
                        entry.outputs@,
                        s as usize,
                        k,
                    )
                &&& post.windows == self.windows
                &&& post.surfaces == self.surfaces
                &&& self.same_rest(post)
            }
    }

    /// Declares the layout of one space. A declaration for an output that is
    /// not known is skipped, and the others go on. Returns how many were
    /// skipped.
    pub fn apply_space_layout(&mut self, entry: &ConfigSpace) -> (skipped: usize)
        requires
            old(self).wf(),
        ensures
            final(self).wf(),
            old(self).space_laid(*final(self), *entry),
            skipped == unknown_count(
                old(self).outputs@,
                entry.outputs@,
                entry.outputs.len() as int,
            ),
            same_names(old(self).outputs@, final(self).outputs@),
    {
        let s = self.add_space(entry.name.clone());
        let ghost pre = old(self).outputs@;
        let ghost declared = entry.outputs@;
        let mut skipped: usize = 0;
        let mut i: usize = 0;
        while i < entry.outputs.len()
            invariant
                i <= entry.outputs.len(),
                skipped <= i,
                skipped == unknown_count(pre, declared, i as int),
                declared == entry.outputs@,
                pre == old(self).outputs@,
                self.wf(),
                s < self.spaces.len(),
                old(self).space_added(self.spaces@, entry.name@, s as int),
                self.outputs.len() == pre.len(),
                forall|k: int|
                    0 <= k < pre.len() ==> #[trigger] self.outputs[k] == declared_output(
                        pre,
                        declared,
                        s,
                        k,
                        i as int,
                    ),
                self.windows == old(self).windows,
                self.surfaces == old(self).surfaces,
                old(self).same_rest(*self),
            decreases entry.outputs.len() - i,
        {
            let c = &entry.outputs[i];
            assert forall|k: int| 0 <= k < pre.len() implies (#[trigger] self.outputs[k]).name
                == pre[k].name by {
                assert(self.outputs[k] == declared_output(pre, declared, s, k, i as int));
            }
            match self.output_by_name(c.name.as_str()) {
                Some(k) => {
                    assert(names_output(pre, c.name@)) by {
                        assert(self.outputs[k as int].name == pre[k as int].name);
                    }
                    assert(first_named(pre, k as int)) by {
                        assert forall|j: int| 0 <= j < k implies pre[j].name@
                            != pre[k as int].name@ by {
                            assert(self.outputs[j].name == pre[j].name);
                            assert(self.outputs[k as int].name == pre[k as int].name);
                        }
                    }
                    self.outputs[k].location = Point { x: c.x, y: c.y };
                    self.outputs[k].scale = c.scale;
                    self.outputs[k].space = Some(s);
                    assert forall|j: int| 0 <= j < pre.len() implies (#[trigger] self.outputs[j])
                        == declared_output(pre, declared, s, j, i + 1) by {
                        if j != k {
                            if pre[j].name@ == c.name@ {
                                assert(!first_named(pre, j)) by {
                                    if j < k {
                                        assert(false);
                                    } else {
                                        assert(pre[k as int].name@ == pre[j].name@);
                                    }
                                }
                            }
                        }
                    }
                },
                None => {
                    skipped += 1;
                    assert forall|j: int| 0 <= j < pre.len() implies pre[j].name@ != c.name@ by {
                        assert(self.outputs[j].name == pre[j].name);
                    }
                    assert forall|j: int| 0 <= j < pre.len() implies (#[trigger] self.outputs[j])
                        == declared_output(pre, declared, s, j, i + 1) by {
                        assert(pre[j].name@ != c.name@);
                    }
                },
            }
            i += 1;
        }
        let mut k: usize = 0;
        while k < self.outputs.len()
            invariant
                k <= self.outputs.len(),
                declared == entry.outputs@,
                pre == old(self).outputs@,
                self.wf(),
                s < self.spaces.len(),
                old(self).space_added(self.spaces@, entry.name@, s as int),
                self.outputs.len() == pre.len(),
                forall|j: int|
                    0 <= j < k ==> #[trigger] self.outputs[j] == laid_output(pre, declared, s, j),
                forall|j: int|
                    k <= j < pre.len() ==> #[trigger] self.outputs[j] == declared_output(
                        pre,
                        declared,
                        s,
                        j,
                        declared.len() as int,
                    ),
                self.windows == old(self).windows,
                self.surfaces == old(self).surfaces,
                old(self).same_rest(*self),
            decreases self.outputs.len() - k,
        {
            assert(self.outputs[k as int] == declared_output(
                pre,
                declared,
                s,
                k as int,
                declared.len() as int,
            ));
            let here = match self.outputs[k].space {
                Some(t) => t == s,
                None => false,
            };
            proof {
                lemma_last_entry_none(declared, pre[k as int].name@, declared.len() as int);
            }
            if here && !output_declared(&entry.outputs, &self.outputs[k].name) {
                self.outputs[k].space = None;
            }
            k += 1;
        }
        skipped
    }

    /// `post` is `self` after the first `n` of the layouts `entries` were
    /// declared, one after the other.
    pub open spec fn spaces_laid(self, post: State, entries: Seq<ConfigSpace>, n: nat) -> bool
        decreases n,
    {
        if n == 0 {
            post == self
        } else {
            exists|mid: State|
                self.spaces_laid(mid, entries, (n - 1) as nat) && #[trigger] mid.space_laid(
                    post,
                    entries[n - 1],
                )
        }
    }

    /// `post` is `self` after the positions of the first `n` spaces were
    /// fixed up, one after the other.
    pub open spec fn spaces_fixed(self, post: State, n: nat) -> bool
        decreases n,
    {
        if n == 0 {
            post == self
        } else {
            exists|mid: State|
                self.spaces_fixed(mid, (n - 1) as nat) && #[trigger] mid.fixed_up(post, n - 1)
        }
    }

    /// `post` is `self` after the layout was declared: space by space, and
    /// then the positions of every space fixed up.
    pub open spec fn layout_set(self, post: State, layout: ConfigLayout) -> bool {
        exists|mid: State|
            #[trigger] self.spaces_laid(mid, layout.spaces@, layout.spaces.len() as nat)
                && mid.spaces_fixed(post, mid.spaces.len() as nat)
    }

    /// Declares the layout of the spaces, and fixes up the positions of every
    /// space. Returns how many declarations were skipped because their output
    /// is not known, as far as the count can be held.
    pub fn set_layout(&mut self, layout: &ConfigLayout) -> (skipped: usize)
        requires
            old(self).wf(),
        ensures
            final(self).wf(),
            old(self).layout_set(*final(self), *layout),
            skipped == min_int(
                unknown_total(
                    old(self).outputs@,
                    layout.spaces@,
                    layout.spaces.len() as int,
                ) as int,
                usize::MAX as int,
            ),
    {
        let mut skipped: usize = 0;
        let mut i: usize = 0;
        while i < layout.spaces.len()
            invariant
                i <= layout.spaces.len(),
                self.wf(),
                old(self).spaces_laid(*self, layout.spaces@, i as nat),
                same_names(old(self).outputs@, self.outputs@),
                skipped == min_int(
                    unknown_total(old(self).outputs@, layout.spaces@, i as int) as int,
                    usize::MAX as int,
                ),
            decreases layout.spaces.len() - i,
        {
            let ghost before = *self;
            let n = self.apply_space_layout(&layout.spaces[i]);
            proof {
                lemma_unknown_by_names(
                    old(self).outputs@,
                    before.outputs@,
                    layout.spaces[i as int].outputs@,
                    layout.spaces[i as int].outputs.len() as int,
                );
            }
            if skipped <= usize::MAX - n {
                skipped += n;
            } else {
                skipped = usize::MAX;
            }
            assert(old(self).spaces_laid(before, layout.spaces@, i as nat));
            assert(before.space_laid(*self, layout.spaces[i as int]));
            proof {
                lemma_spaces_laid_step(*old(self), before, *self, layout.spaces@, (i + 1) as nat);
            }
            i += 1;
        }
        let ghost mid = *self;
        let mut s: usize = 0;
        while s < self.spaces.len()
            invariant
                s <= self.spaces.len(),
                self.wf(),
                self.spaces.len() == mid.spaces.len(),
                mid.spaces_fixed(*self, s as nat),
            decreases self.spaces.len() - s,
        {
            let ghost before = *self;
            self.fixup_space(s);
            assert(mid.spaces_fixed(before, s as nat));
            assert(before.fixed_up(*self, s as int));
            proof {
                lemma_spaces_fixed_step(mid, before, *self, (s + 1) as nat);
            }
            s += 1;
        }
        skipped
    }
}

/// One more layout declared after the first `n - 1` makes the first `n`.
pub proof fn lemma_spaces_laid_step(
    pre: State,
    mid: State,
    post: State,
    entries: Seq<ConfigSpace>,
    n: nat,
)
    requires
        n > 0,
        pre.spaces_laid(mid, entries, (n - 1) as nat),
        mid.space_laid(post, entries[n - 1]),
    ensures
        pre.spaces_laid(post, entries, n),
{
}

/// One more space fixed up after the first `n - 1` makes the first `n`.
pub proof fn lemma_spaces_fixed_step(pre: State, mid: State, post: State, n: nat)
    requires
        n > 0,
        pre.spaces_fixed(mid, (n - 1) as nat),
        mid.fixed_up(post, n - 1),
    ensures
        pre.spaces_fixed(post, n),
{
}

/// Whether some declaration names the output `name`.
pub fn output_declared(declared: &Vec<ConfigOutput>, name: &String) -> (r: bool)
    ensures
        r == exists|j: int| 0 <= j < declared.len() && declared[j].name@ == name@,
{
    let mut i: usize = 0;
    while i < declared.len()
        invariant
            i <= declared.len(),
            forall|j: int| 0 <= j < i ==> declared[j].name@ != name@,
        decreases declared.len() - i,
    {
        if declared[i].name == *name {
            return true;
        }
        i += 1;
    }
    false
}

} // verus!

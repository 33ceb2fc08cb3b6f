use vstd::prelude::*;

verus! {

/// What a characteristic is: its name and whether it may be read and written.
pub ghost struct CharacteristicView {
    pub name: Seq<char>,
    pub is_read: bool,
    pub is_write: bool,
}

/// What a service is: its name and its characteristics, in the order they were first
/// registered.
pub ghost struct ServiceView {
    pub name: Seq<char>,
    pub characteristics: Seq<CharacteristicView>,
}

/// A characteristic of the simulated GATT server.
pub struct BLECharacteristicSimImpl {
    name: String,
    is_read: bool,
    is_write: bool,
}

/// A service of the simulated GATT server; it holds at most one characteristic per name.
pub struct BLEServiceSimImpl {
    name: String,
    characteristics: Vec<BLECharacteristicSimImpl>,
}

/// The simulated GATT server; it holds at most one service per name.
pub struct BLEServerSimImpl {
    services: Vec<BLEServiceSimImpl>,
}

/// `items` with `c` in place of the entry named like it, or with `c` at the end where none is.
pub open spec fn characteristics_after(items: Seq<CharacteristicView>, c: CharacteristicView) -> Seq<
    CharacteristicView,
> {
    if exists|j: int| 0 <= j < items.len() && items[j].name == c.name {
        let j = choose|j: int| 0 <= j < items.len() && items[j].name == c.name;
        items.update(j, c)
    } else {
        items.push(c)
    }
}

/// `items` with `s` in place of the service named like it, or with `s` at the end where none is.
pub open spec fn services_after(items: Seq<ServiceView>, s: ServiceView) -> Seq<ServiceView> {
    if exists|j: int| 0 <= j < items.len() && items[j].name == s.name {
        let j = choose|j: int| 0 <= j < items.len() && items[j].name == s.name;
        items.update(j, s)
    } else {
        items.push(s)
    }
}

pub open spec fn characteristic_names_unique(items: Seq<CharacteristicView>) -> bool {
    forall|i: int, j: int|
        0 <= i < items.len() && 0 <= j < items.len() && i != j ==> items[i].name != items[j].name
}

pub open spec fn service_names_unique(items: Seq<ServiceView>) -> bool {
    forall|i: int, j: int|
        0 <= i < items.len() && 0 <= j < items.len() && i != j ==> items[i].name != items[j].name
}

impl View for BLECharacteristicSimImpl {
    type V = CharacteristicView;

    closed spec fn view(&self) -> CharacteristicView {
        CharacteristicView { name: self.name@, is_read: self.is_read, is_write: self.is_write }
    }
}

impl View for BLEServiceSimImpl {
    type V = ServiceView;

    closed spec fn view(&self) -> ServiceView {
        ServiceView {
            name: self.name@,
            characteristics: self.characteristics@.map_values(|c: BLECharacteristicSimImpl| c@),
        }
    }
}

impl View for BLEServerSimImpl {
    type V = Seq<ServiceView>;

    closed spec fn view(&self) -> Seq<ServiceView> {
        self.services@.map_values(|s: BLEServiceSimImpl| s@)
    }
}

impl Clone for BLECharacteristicSimImpl {
    fn clone(&self) -> (r: Self)
        ensures
            r@ == self@,
    {
        BLECharacteristicSimImpl {
            name: self.name.clone(),
            is_read: self.is_read,
            is_write: self.is_write,
        }
    }
}

impl BLECharacteristicSimImpl {
    pub fn get_name(&self) -> (r: &str)
        ensures
            r@ == self@.name,
    {
        self.name.as_str()
    }

    /// The name, as an owned string.
    pub fn name(&self) -> (r: String)
        ensures
            r@ == self@.name,
    {
        self.name.clone()
    }

    pub fn is_read(&self) -> (r: bool)
        ensures
            r == self@.is_read,
    {
        self.is_read
    }

    pub fn is_write(&self) -> (r: bool)
        ensures
            r == self@.is_write,
    {
        self.is_write
    }
}

impl BLEServiceSimImpl {
    pub closed spec fn wf(&self) -> bool {
        characteristic_names_unique(self@.characteristics)
    }

    /// A service named `name` without characteristics.
    pub fn new(name: &str) -> (r: Self)
        ensures
            r.wf(),
            r@.name == name@,
            r@.characteristics == Seq::<CharacteristicView>::empty(),
    {
        let r = BLEServiceSimImpl { name: name.to_owned(), characteristics: Vec::new() };
        assert(r@.characteristics =~= Seq::<CharacteristicView>::empty());
        r
    }

    pub fn get_name(&self) -> (r: &str)
        ensures
            r@ == self@.name,
    {
        self.name.as_str()
    }

    /// Registers the characteristic `name`. Registering a name again replaces its entry, so
    /// the service never holds two characteristics of one name.
    pub fn register_characteristic(&mut self, name: &str, is_read: bool, is_write: bool) -> (r:
        BLECharacteristicSimImpl)
        requires
            old(self).wf(),
        ensures
            final(self).wf(),
            r@ == (CharacteristicView { name: name@, is_read, is_write }),
            final(self)@ == (ServiceView {
                name: old(self)@.name,
                characteristics: characteristics_after(old(self)@.characteristics, r@),
            }),
    {
        let c = BLECharacteristicSimImpl { name: name.to_owned(), is_read, is_write };
        let ghost old_view = self@.characteristics;
        let n = self.characteristics.len();
        let mut i: usize = 0;
        while i < n
            invariant
                n == self.characteristics@.len(),
                i <= n,
                self.characteristics@.map_values(|c: BLECharacteristicSimImpl| c@) == old_view,
                forall|k: int| 0 <= k < i ==> old_view[k].name != c@.name,
                characteristic_names_unique(old_view),
                c@ == (CharacteristicView { name: name@, is_read, is_write }),
                self@.name == old(self)@.name,
                old_view == old(self)@.characteristics,
            decreases n - i,
        {
            if self.characteristics[i].name == c.name {
                let ghost j = i as int;
                self.characteristics.set(i, BLECharacteristicSimImpl { name: name.to_owned(), is_read, is_write });
                proof {
                    assert(old_view[j].name == c@.name);
                    assert(self@.characteristics =~= old_view.update(j, c@));
                    assert(0 <= j < old_view.len() && old_view[j].name == c@.name);
                    let k = choose|k: int| 0 <= k < old_view.len() && old_view[k].name == c@.name;
                    assert(k == j);
                    assert(characteristics_after(old_view, c@) == old_view.update(j, c@));
                    assert(self@.name == old(self)@.name);
                    assert(old_view == old(self)@.characteristics);
                }
                return c;
            }
            i = i + 1;
        }
        self.characteristics.push(BLECharacteristicSimImpl { name: name.to_owned(), is_read, is_write });
        assert(self@.characteristics =~= old_view.push(c@));
        c
    }
}

impl Clone for BLEServiceSimImpl {
    fn clone(&self) -> (r: Self)
        ensures
            r@ == self@,
    {
        let mut characteristics: Vec<BLECharacteristicSimImpl> = Vec::new();
        let mut i: usize = 0;
        while i < self.characteristics.len()
            invariant
                i <= self.characteristics@.len(),
                characteristics@.len() == i,
                characteristics@.map_values(|c: BLECharacteristicSimImpl| c@) =~= self.characteristics@.subrange(
                    0,
                    i as int,
                ).map_values(|c: BLECharacteristicSimImpl| c@),
            decreases self.characteristics@.len() - i,
        {
            let c = &self.characteristics[i];
            let copy = BLECharacteristicSimImpl {
                name: c.name.clone(),
                is_read: c.is_read,
                is_write: c.is_write,
            };
            assert(copy@ == self.characteristics@[i as int]@);
            let ghost before = characteristics@;
            characteristics.push(copy);
            assert(self.characteristics@.subrange(0, i + 1) =~= self.characteristics@.subrange(
                0,
                i as int,
            ).push(self.characteristics@[i as int]));
            assert(characteristics@ == before.push(copy));
            assert forall|k: int| 0 <= k < i + 1 implies #[trigger] characteristics@[k]@ == self.characteristics@[k]@ by {
                if k < i {
                    assert(before.map_values(|c: BLECharacteristicSimImpl| c@)[k] == self.characteristics@.subrange(
                        0,
                        i as int,
                    ).map_values(|c: BLECharacteristicSimImpl| c@)[k]);
                }
            }
            assert(characteristics@.map_values(|c: BLECharacteristicSimImpl| c@) =~= self.characteristics@.subrange(
                0,
                i + 1,
            ).map_values(|c: BLECharacteristicSimImpl| c@));
            i = i + 1;
        }
        assert(self.characteristics@.subrange(0, i as int) =~= self.characteristics@);
        let r = BLEServiceSimImpl { name: self.name.clone(), characteristics };
        assert(r@.characteristics =~= self@.characteristics);
        r
    }
}

impl BLEServerSimImpl {
    pub closed spec fn wf(&self) -> bool {
        service_names_unique(self@)
    }

    /// A server without services.
    pub fn new() -> (r: Self)
        ensures
            r.wf(),
            r@ == Seq::<ServiceView>::empty(),
    {
        let r = BLEServerSimImpl { services: Vec::new() };
        assert(r@ =~= Seq::<ServiceView>::empty());
        r
    }

    /// Registers the service `name` and hands out a fresh copy of it; registering a name
    /// again replaces its entry.
    pub fn register_service(&mut self, name: &str) -> (r: BLEServiceSimImpl)
        requires
            old(self).wf(),
        ensures
            final(self).wf(),
            r.wf(),
            r@ == (ServiceView { name: name@, characteristics: Seq::empty() }),
            final(self)@ == services_after(old(self)@, r@),
    {
        let s = BLEServiceSimImpl::new(name);
        let ghost old_view = self@;
        let n = self.services.len();
        let mut i: usize = 0;
        while i < n
            invariant
                n == self.services@.len(),
                i <= n,
                self@ == old_view,
                forall|k: int| 0 <= k < i ==> old_view[k].name != s@.name,
                service_names_unique(old_view),
                old_view == old(self)@,
                s.wf(),
                s@ == (ServiceView { name: name@, characteristics: Seq::empty() }),
            decreases n - i,
        {
            if self.services[i].name == s.name {
                let ghost j = i as int;
                self.services.set(i, BLEServiceSimImpl::new(name));
                proof {
                    assert(old_view[j].name == s@.name);
                    assert(self@ =~= old_view.update(j, s@));
                    assert(0 <= j < old_view.len() && old_view[j].name == s@.name);
                    let k = choose|k: int| 0 <= k < old_view.len() && old_view[k].name == s@.name;
                    assert(k == j);
                    assert(services_after(old_view, s@) == old_view.update(j, s@));
                }
                return s;
            }
            i = i + 1;
        }
        self.services.push(BLEServiceSimImpl::new(name));
        assert(self@ =~= old_view.push(s@));
        s
    }
}

} // verus!

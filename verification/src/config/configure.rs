use vstd::prelude::*;

verus! {

pub const DEFAULT_STORE_LIMIT: u32 = 100;

pub const DEFAULT_SYNC_PORT: u16 = 12022;

pub const DEFAULT_GRAPHQL_PORT: u16 = 12020;

pub const DEFAULT_TOGGLE_WINDOW_HOTKEY: &'static str = "CommandOrControl+Shift+k";

/// Node configuration.  Every field is optional so that a partial patch can
/// be merged over a base configuration: an absent field never overwrites a
/// present one.
#[derive(Debug, Clone)]
pub struct Configure {
    /// Bound on the number of records kept by the eviction policy.
    pub store_limit: Option<u32>,
    /// Port the synchronisation server listens on.
    pub sync_port: Option<u16>,
    /// Port of the local query endpoint.
    pub graphql_port: Option<u16>,
    /// Hotkey that toggles the main window.
    pub toggle_window_hotkey: Option<String>,
    /// Peer addresses to register with at startup.
    pub sync_server_addr_list: Option<Vec<String>>,
}

impl Default for Configure {
    /// The built-in configuration: every scalar field is populated with its
    /// default; no peers are configured.
    fn default() -> (r: Self)
        ensures
            r.store_limit == Some(DEFAULT_STORE_LIMIT),
            r.sync_port == Some(DEFAULT_SYNC_PORT),
            r.graphql_port == Some(DEFAULT_GRAPHQL_PORT),
            (r.toggle_window_hotkey matches Some(h) && h@ == DEFAULT_TOGGLE_WINDOW_HOTKEY@),
            r.sync_server_addr_list is None,
    {
        Configure {
            store_limit: Some(DEFAULT_STORE_LIMIT),
            sync_port: Some(DEFAULT_SYNC_PORT),
            graphql_port: Some(DEFAULT_GRAPHQL_PORT),
            toggle_window_hotkey: Some(DEFAULT_TOGGLE_WINDOW_HOTKEY.to_owned()),
            sync_server_addr_list: None,
        }
    }
}

impl Configure {
    /// Overlay `other` on this configuration: a field set in `other` wins,
    /// an absent field leaves the current value untouched.
    pub fn merge(&mut self, other: Self)
        ensures
            final(self).store_limit == (if other.store_limit is Some {
                other.store_limit
            } else {
                old(self).store_limit
            }),
            final(self).sync_port == (if other.sync_port is Some {
                other.sync_port
            } else {
                old(self).sync_port
            }),
            final(self).graphql_port == (if other.graphql_port is Some {
                other.graphql_port
            } else {
                old(self).graphql_port
            }),
            final(self).toggle_window_hotkey == (if other.toggle_window_hotkey is Some {
                other.toggle_window_hotkey
            } else {
                old(self).toggle_window_hotkey
            }),
            final(self).sync_server_addr_list == (if other.sync_server_addr_list is Some {
                other.sync_server_addr_list
            } else {
                old(self).sync_server_addr_list
            }),
    {
        if other.store_limit.is_some() {
            self.store_limit = other.store_limit;
        }
        if other.sync_port.is_some() {
            self.sync_port = other.sync_port;
        }
        if other.graphql_port.is_some() {
            self.graphql_port = other.graphql_port;
        }
        if other.toggle_window_hotkey.is_some() {
            self.toggle_window_hotkey = other.toggle_window_hotkey;
        }
        if other.sync_server_addr_list.is_some() {
            self.sync_server_addr_list = other.sync_server_addr_list;
        }
    }

    /// Drop one peer address from the configured bootstrap list, as done
    /// when its registration retries are exhausted; reports whether the
    /// list held it.
    pub fn remove_sync_server_addr(&mut self, addr: &str) -> (r: bool)
        ensures
            final(self).store_limit == old(self).store_limit,
            final(self).sync_port == old(self).sync_port,
            final(self).graphql_port == old(self).graphql_port,
            final(self).toggle_window_hotkey == old(self).toggle_window_hotkey,
            match old(self).sync_server_addr_list {
                None => final(self).sync_server_addr_list is None && r == false,
                Some(list) => (final(self).sync_server_addr_list matches Some(kept)
                    && kept@ == list@.filter(|a: String| a@ != addr@)
                    && r == exists|i: int| 0 <= i < list@.len() && list@[i]@ == addr@),
            },
    {
        match &mut self.sync_server_addr_list {
            None => false,
            Some(list) => {
                let ghost orig = list@;
                let ghost pred = |a: String| a@ != addr@;
                let key = addr.to_owned();
                let mut kept: Vec<String> = Vec::new();
                let mut removed = false;
                let mut idx: usize = 0;
                proof {
                    reveal(Seq::filter);
                    assert(orig.take(0).filter(pred) =~= Seq::<String>::empty());
                }
                while idx < list.len()
                    invariant
                        idx <= orig.len(),
                        list@ == orig,
                        kept@ == orig.take(idx as int).filter(pred),
                        removed == exists|i: int| 0 <= i < idx && orig[i]@ == key@,
                        key@ == addr@,
                        pred == (|a: String| a@ != addr@),
                    decreases orig.len() - idx,
                {
                    let item = &list[idx];
                    if *item == key {
                        removed = true;
                    } else {
                        kept.push(item.clone());
                    }
                    proof {
                        reveal(Seq::filter);
                        assert(orig.take(idx as int + 1).drop_last() =~= orig.take(idx as int));
                        assert(orig.take(idx as int + 1).last() == orig[idx as int]);
                    }
                    idx += 1;
                }
                proof {
                    assert(orig.take(orig.len() as int) =~= orig);
                }
                *list = kept;
                removed
            },
        }
    }
}

} // verus!

//! The interface walker: which interfaces of a resolved world take part
//! in a generation run. Interfaces of two reserved host-infrastructure
//! packages are never treated as lattice-invocable, and the configured
//! allow and deny lists narrow what the provider exposes.

use crate::config::ProviderBindgenConfig;
use crate::model::clone_function;
use crate::model::InterfaceModel;
use crate::model::WitFunction;
use crate::model::WitInterface;
use crate::strutil::str_eq;
use vstd::prelude::*;

verus! {

/// Whether a package is reserved host infrastructure: the bus-control
/// package and the low-level I/O package are never lattice-invocable.
pub open spec fn ignored_pkg(namespace: Seq<char>, package: Seq<char>) -> bool {
    (namespace == "wasmcloud"@ && package == "bus"@) || (namespace == "wasi"@ && package == "io"@)
}

/// Check whether a package should *not* be processed while generating
/// invocation handlers.
pub fn is_ignored_invocation_handler_pkg(namespace: &str, package: &str) -> (r: bool)
    ensures
        r == ignored_pkg(namespace@, package@),
{
    (str_eq(namespace, "wasmcloud") && str_eq(package, "bus")) || (str_eq(namespace, "wasi")
        && str_eq(package, "io"))
}

/// The views of a list of names.
pub open spec fn names_view(v: Seq<String>) -> Seq<Seq<char>> {
    v.map_values(|s: String| s@)
}

/// Whether an exported interface is exposed on the lattice: its package is
/// not reserved, the allow list (when non-empty) names it, and the deny
/// list does not.
pub open spec fn exposed_iface(
    allow: Seq<Seq<char>>,
    deny: Seq<Seq<char>>,
    ifc: InterfaceModel,
) -> bool {
    &&& !ignored_pkg(ifc.namespace, ifc.package)
    &&& (allow.len() == 0 || allow.contains(ifc.name))
    &&& !deny.contains(ifc.name)
}

/// Whether an imported interface gets an invocation handler: only its
/// package must not be reserved.
pub open spec fn handled_iface(ifc: InterfaceModel) -> bool {
    !ignored_pkg(ifc.namespace, ifc.package)
}

/// The models of each interface in a sequence, in order.
pub open spec fn ifaces_model(v: Seq<WitInterface>) -> Seq<InterfaceModel> {
    v.map_values(|i: WitInterface| i.model())
}

/// Whether a list of names contains the given name.
fn list_contains(names: &Vec<String>, name: &str) -> (r: bool)
    ensures
        r == names_view(names@).contains(name@),
{
    let n = names.len();
    let mut i: usize = 0;
    while i < n
        invariant
            n == names@.len(),
            i <= n,
            forall|j: int| 0 <= j < i ==> names_view(names@)[j] != name@,
        decreases n - i,
    {
        if str_eq(names[i].as_str(), name) {
            proof {
                assert(names_view(names@)[i as int] == name@);
            }
            return true;
        }
        i += 1;
    }
    proof {
        if names_view(names@).contains(name@) {
            let j = choose|j: int| 0 <= j < names_view(names@).len() && names_view(names@)[j]
                == name@;
            assert(false);
        }
    }
    false
}

/// Copy an interface; the copy stands for the same interface.
fn clone_interface(ifc: &WitInterface) -> (r: WitInterface)
    ensures
        r.model() == ifc.model(),
{
    let mut functions: Vec<WitFunction> = Vec::new();
    let n = ifc.functions.len();
    let mut i: usize = 0;
    while i < n
        invariant
            n == ifc.functions@.len(),
            functions@.len() == i <= n,
            forall|j: int|
                0 <= j < i ==> functions@[j].model() == #[trigger] ifc.functions@[j].model(),
        decreases n - i,
    {
        let f = clone_function(&ifc.functions[i]);
        functions.push(f);
        i += 1;
    }
    let r = WitInterface {
        namespace: ifc.namespace.clone(),
        package: ifc.package.clone(),
        name: ifc.name.clone(),
        functions,
    };
    proof {
        assert(r.model().functions =~= ifc.model().functions);
    }
    r
}

/// Decide whether one exported interface is exposed.
fn is_exposed(cfg: &ProviderBindgenConfig, ifc: &WitInterface) -> (r: bool)
    ensures
        r == exposed_iface(
            names_view(cfg.exposed_interface_allow_list@),
            names_view(cfg.exposed_interface_deny_list@),
            ifc.model(),
        ),
{
    if is_ignored_invocation_handler_pkg(ifc.namespace.as_str(), ifc.package.as_str()) {
        return false;
    }
    if cfg.exposed_interface_allow_list.len() > 0 && !list_contains(
        &cfg.exposed_interface_allow_list,
        ifc.name.as_str(),
    ) {
        return false;
    }
    if list_contains(&cfg.exposed_interface_deny_list, ifc.name.as_str()) {
        return false;
    }
    true
}

/// Walk the exported interfaces and keep, in discovery order, exactly the
/// ones the run exposes on the lattice.
pub fn walk_exposed_interfaces(cfg: &ProviderBindgenConfig, ifaces: &Vec<WitInterface>) -> (r: Vec<
    WitInterface,
>)
    ensures
        ifaces_model(r@) == ifaces_model(ifaces@).filter(
            |m: InterfaceModel|
                exposed_iface(
                    names_view(cfg.exposed_interface_allow_list@),
                    names_view(cfg.exposed_interface_deny_list@),
                    m,
                ),
        ),
{
    let ghost pred = |m: InterfaceModel|
        exposed_iface(
            names_view(cfg.exposed_interface_allow_list@),
            names_view(cfg.exposed_interface_deny_list@),
            m,
        );
    let mut out: Vec<WitInterface> = Vec::new();
    let n = ifaces.len();
    let mut i: usize = 0;
    proof {
        reveal(Seq::filter);
        assert(ifaces_model(ifaces@.take(0)) =~= Seq::<InterfaceModel>::empty());
        assert(ifaces_model(out@) =~= ifaces_model(ifaces@.take(0)).filter(pred));
    }
    while i < n
        invariant
            n == ifaces@.len(),
            i <= n,
            ifaces_model(out@) == ifaces_model(ifaces@.take(i as int)).filter(pred),
            pred == (|m: InterfaceModel|
                exposed_iface(
                    names_view(cfg.exposed_interface_allow_list@),
                    names_view(cfg.exposed_interface_deny_list@),
                    m,
                )),
        decreases n - i,
    {
        proof {
            reveal(Seq::filter);
            let prefix = ifaces_model(ifaces@.take(i as int + 1));
            assert(prefix.drop_last() =~= ifaces_model(ifaces@.take(i as int)));
            assert(prefix.last() == ifaces@[i as int].model());
        }
        if is_exposed(cfg, &ifaces[i]) {
            let c = clone_interface(&ifaces[i]);
            out.push(c);
            proof {
                assert(ifaces_model(out@) =~= ifaces_model(ifaces@.take(i as int + 1)).filter(
                    pred,
                ));
            }
        } else {
            proof {
                assert(ifaces_model(out@) =~= ifaces_model(ifaces@.take(i as int + 1)).filter(
                    pred,
                ));
            }
        }
        i += 1;
    }
    proof {
        assert(ifaces@.take(n as int) =~= ifaces@);
    }
    out
}

/// Walk the imported interfaces and keep, in discovery order, exactly the
/// ones that get invocation handlers.
pub fn walk_handled_interfaces(ifaces: &Vec<WitInterface>) -> (r: Vec<WitInterface>)
    ensures
        ifaces_model(r@) == ifaces_model(ifaces@).filter(|m: InterfaceModel| handled_iface(m)),
{
    let ghost pred = |m: InterfaceModel| handled_iface(m);
    let mut out: Vec<WitInterface> = Vec::new();
    let n = ifaces.len();
    let mut i: usize = 0;
    proof {
        reveal(Seq::filter);
        assert(ifaces_model(ifaces@.take(0)) =~= Seq::<InterfaceModel>::empty());
        assert(ifaces_model(out@) =~= ifaces_model(ifaces@.take(0)).filter(pred));
    }
    while i < n
        invariant
            n == ifaces@.len(),
            i <= n,
            ifaces_model(out@) == ifaces_model(ifaces@.take(i as int)).filter(pred),
            pred == (|m: InterfaceModel| handled_iface(m)),
        decreases n - i,
    {
        proof {
            reveal(Seq::filter);
            let prefix = ifaces_model(ifaces@.take(i as int + 1));
            assert(prefix.drop_last() =~= ifaces_model(ifaces@.take(i as int)));
            assert(prefix.last() == ifaces@[i as int].model());
        }
        if !is_ignored_invocation_handler_pkg(
            ifaces[i].namespace.as_str(),
            ifaces[i].package.as_str(),
        ) {
            let c = clone_interface(&ifaces[i]);
            out.push(c);
            proof {
                assert(ifaces_model(out@) =~= ifaces_model(ifaces@.take(i as int + 1)).filter(
                    pred,
                ));
            }
        } else {
            proof {
                assert(ifaces_model(out@) =~= ifaces_model(ifaces@.take(i as int + 1)).filter(
                    pred,
                ));
            }
        }
        i += 1;
    }
    proof {
        assert(ifaces@.take(n as int) =~= ifaces@);
    }
    out
}

} // verus!

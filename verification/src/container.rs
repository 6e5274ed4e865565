//! The container's interface: the addresses and routes that are put on it
//! from inside the container's namespace.

use vstd::prelude::*;
use crate::error::{Error, ErrorKind};
use crate::host::{Link, Request, RequestView};
use crate::types::{items, ExecResult, Ip, Route};

verus! {

/// What each request of a list holds.
pub open spec fn requests_view(requests: Seq<Request>) -> Seq<RequestView> {
    requests.map_values(|r: Request| r@)
}

/// The addition of each address that has an owning interface, in order.
pub open spec fn address_requests(link: u32, ips: Seq<Ip>) -> Seq<RequestView> {
    ips.filter_map(
        |ip: Ip|
            if ip.interface.is_some() {
                Some(RequestView::AddrAdd { link: link, addr: ip.address })
            } else {
                None
            },
    )
}

/// The addition of each route through the device, in order.
pub open spec fn route_requests(link: u32, routes: Seq<Route>) -> Seq<RequestView> {
    routes.map_values(|r: Route| RequestView::RouteAdd { link: link, dst: r.dst, gw: r.gw })
}

/// The operations that configure the device `link`: every address that has
/// an owning interface is added, the device is brought up, and every route
/// is added through it.
pub open spec fn interface_plan(link: u32, ips: Seq<Ip>, routes: Seq<Route>) -> Seq<RequestView> {
    address_requests(link, ips).push(RequestView::LinkSetUp(link)) + route_requests(link, routes)
}

/// The operations that configure the container's interface `if_name` with
/// the addresses and routes of `exec_result`, given the device that was found
/// under that name. No device is a `Provisioning` error, a result without a
/// list of addresses a `Delegate` error.
pub fn config_interface(if_name: &str, link: Option<&Link>, exec_result: &ExecResult) -> (r: Result<
    Vec<Request>,
    Error,
>)
    ensures
        match (link, exec_result.ips) {
            (None, _) => r is Err && r->Err_0.kind == ErrorKind::Provisioning,
            (Some(_), None) => r is Err && r->Err_0.kind == ErrorKind::Delegate,
            (Some(l), Some(ips)) => r is Ok && requests_view(r->Ok_0@) == interface_plan(
                l.index,
                ips@,
                items(exec_result.routes),
            ),
        },
{
    let link = match link {
        Some(l) => l.index,
        None => {
            return Err(Error::new(ErrorKind::Provisioning, "link not found"));
        },
    };
    let ips = match &exec_result.ips {
        Some(ips) => ips,
        None => {
            return Err(Error::new(ErrorKind::Delegate, "ips not found"));
        },
    };
    let ghost pick = |ip: Ip|
        if ip.interface.is_some() {
            Some(RequestView::AddrAdd { link: link, addr: ip.address })
        } else {
            None
        };
    let mut plan: Vec<Request> = Vec::new();
    let mut i: usize = 0;
    assert(requests_view(plan@) =~= ips@.take(0).filter_map(pick));
    while i < ips.len()
        invariant
            i <= ips.len(),
            pick == |ip: Ip|
                if ip.interface.is_some() {
                    Some(RequestView::AddrAdd { link: link, addr: ip.address })
                } else {
                    None
                },
            requests_view(plan@) == ips@.take(i as int).filter_map(pick),
        decreases ips.len() - i,
    {
        proof {
            ips@.lemma_filter_map_take_succ(pick, i as int);
        }
        let ip = ips[i];
        if ip.interface.is_some() {
            let ghost before = plan@;
            plan.push(Request::AddrAdd { link, addr: ip.address });
            assert(requests_view(plan@) =~= requests_view(before).push(
                RequestView::AddrAdd { link: link, addr: ip.address },
            ));
        }
        i = i + 1;
    }
    assert(ips@.take(i as int) =~= ips@);
    let ghost addresses = plan@;
    plan.push(Request::LinkSetUp(link));
    assert(requests_view(plan@) =~= requests_view(addresses).push(RequestView::LinkSetUp(link)));
    match &exec_result.routes {
        None => {
            assert(requests_view(plan@) =~= interface_plan(link, ips@, items(exec_result.routes)));
        },
        Some(routes) => {
            let ghost head = requests_view(plan@);
            let mut j: usize = 0;
            while j < routes.len()
                invariant
                    j <= routes.len(),
                    requests_view(plan@) == head + route_requests(link, routes@.take(j as int)),
                decreases routes.len() - j,
            {
                let route = routes[j];
                let ghost before = plan@;
                plan.push(Request::RouteAdd { link, dst: route.dst, gw: route.gw });
                assert(requests_view(plan@) =~= requests_view(before).push(
                    RequestView::RouteAdd { link: link, dst: route.dst, gw: route.gw },
                ));
                assert(route_requests(link, routes@.take(j + 1)) =~= route_requests(
                    link,
                    routes@.take(j as int),
                ).push(RequestView::RouteAdd { link: link, dst: route.dst, gw: route.gw }));
                j = j + 1;
            }
            assert(routes@.take(j as int) =~= routes@);
        },
    }
    Ok(plan)
}

} // verus!

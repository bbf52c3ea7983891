//! The client: the hosts it talks to, the opening of transactions and the
//! administration of datacenters.

use vstd::prelude::*;
use crate::antidote_pb::{
    write_repeated_bytes, write_repeated_string, ApbConnectToDCs, ApbConnectToDCsResp,
    ApbCreateDC, ApbCreateDCResp, ApbGetConnectionDescriptor, ApbGetConnectionDescriptorResp,
    ApbStartTransaction, ApbStartTransactionResp, ApbTxnProperties,
};
use crate::coder::{
    encode_msg, encoded, same_bytes, CODE_CONNECT_TO_DCS, CODE_CREATE_DC,
    CODE_GET_CONNECTION_DESCRIPTOR,
};
use crate::error::ClientError;
use crate::transactions::{ack, check_ack, InteractiveTransaction, StaticTransaction};

verus! {

/// The port on which a server usually offers its protocol interface.
pub const DEFAULT_PORT: i32 = 8087;

/// One server: its name or address, and the port of its protocol interface.
pub struct Host {
    pub name: String,
    pub port: i32,
}

/// The hosts that a client is configured with; one pool belongs to each.
pub struct Client {
    pub hosts: Vec<Host>,
}

/// A client for the given hosts.
pub fn new_client(hosts: Vec<Host>) -> (r: Result<Client, ClientError>)
    ensures
        r == Ok::<Client, ClientError>(Client { hosts }),
{
    Ok(Client { hosts })
}

impl Client {
    /// The opening of an interactive transaction: read-write, and blue.
    pub open spec fn opening() -> ApbStartTransaction {
        ApbStartTransaction {
            properties: Some(ApbTxnProperties { read_write: Some(0u32), red_blue: Some(0u32) }),
        }
    }

    /// The pool to take a connection from: that of the first host.
    pub fn select_pool(&self) -> (r: Result<usize, ClientError>)
        ensures
            self.hosts@.len() > 0 ==> r == Ok::<usize, ClientError>(0usize),
            self.hosts@.len() == 0 ==> r == Err::<usize, ClientError>(ClientError::NoHost),
    {
        if self.hosts.len() > 0 {
            Ok(0)
        } else {
            Err(ClientError::NoHost)
        }
    }

    /// The frame that opens an interactive transaction.
    pub fn start_transaction_request(&self) -> (r: Result<Vec<u8>, ClientError>)
        ensures
            same_bytes(r, encoded(119, Self::opening().wire())),
    {
        let opening = ApbStartTransaction {
            properties: Some(ApbTxnProperties { read_write: Some(0), red_blue: Some(0) }),
        };
        opening.encode()
    }

    /// The transaction that the server opened: open, under the descriptor of
    /// the answer.
    pub fn start_transaction(&self, resp: ApbStartTransactionResp) -> (r: InteractiveTransaction)
        ensures
            r.tx_id == resp.transaction_descriptor,
            !r.committed,
    {
        InteractiveTransaction { tx_id: resp.transaction_descriptor, committed: false }
    }

    /// A handle for static reads and updates. Nothing is sent for it.
    pub fn create_static_transaction(&self) -> (r: Result<StaticTransaction, ClientError>)
        ensures
            r is Ok,
    {
        Ok(StaticTransaction {  })
    }

    /// The frame that forms a datacenter of the named nodes.
    pub fn create_dc_request(&self, node_names: &Vec<String>) -> (r: Result<Vec<u8>, ClientError>)
        ensures
            same_bytes(r, encoded(129, (ApbCreateDC { nodes: *node_names }).wire())),
    {
        let payload = write_repeated_string(1, node_names);
        encode_msg(&payload, CODE_CREATE_DC)
    }

    /// What the answer to the forming of a datacenter means.
    pub fn create_dc(&self, resp: &ApbCreateDCResp) -> (r: Result<(), ClientError>)
        ensures
            r == ack(resp.success, resp.errorcode),
    {
        check_ack(resp.success, resp.errorcode)
    }

    /// The frame that asks for the descriptor of this datacenter.
    pub fn get_connection_descriptor_request(&self) -> (r: Result<Vec<u8>, ClientError>)
        ensures
            same_bytes(r, encoded(133, (ApbGetConnectionDescriptor {  }).wire())),
    {
        let payload: Vec<u8> = Vec::new();
        encode_msg(&payload, CODE_GET_CONNECTION_DESCRIPTOR)
    }

    /// The descriptor in the answer, or the server's error code.
    pub fn get_connection_descriptor(&self, resp: ApbGetConnectionDescriptorResp) -> (r: Result<
        Vec<u8>,
        ClientError,
    >)
        ensures
            resp.success ==> r == Ok::<Vec<u8>, ClientError>(resp.descriptor),
            !resp.success ==> r == Err::<Vec<u8>, ClientError>(
                ClientError::Operation { errorcode: resp.errorcode },
            ),
    {
        if !resp.success {
            return Err(ClientError::Operation { errorcode: resp.errorcode });
        }
        Ok(resp.descriptor)
    }

    /// The frame that joins this datacenter with those of the descriptors.
    pub fn connect_to_dcs_request(&self, descriptors: &Vec<Vec<u8>>) -> (r: Result<
        Vec<u8>,
        ClientError,
    >)
        ensures
            same_bytes(r, encoded(131, (ApbConnectToDCs { descriptors: *descriptors }).wire())),
    {
        let payload = write_repeated_bytes(1, descriptors);
        encode_msg(&payload, CODE_CONNECT_TO_DCS)
    }

    /// What the answer to the joining of datacenters means.
    pub fn connect_to_dcs(&self, resp: &ApbConnectToDCsResp) -> (r: Result<(), ClientError>)
        ensures
            r == ack(resp.success, resp.errorcode),
    {
        check_ack(resp.success, resp.errorcode)
    }
}

} // verus!

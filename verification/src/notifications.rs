//! Notifications that the server sends to the peer on its own account, and
//! the handle through which a running call reports its progress.

use crate::channel::enqueue;
use crate::request::{chars_of, ProgressToken, ProgressTokenView};
use tokio::sync::mpsc::UnboundedSender;
use vstd::prelude::*;

verus! {

/// A notification from the server to the peer.
#[derive(Debug)]
pub enum ServerNotification {
    /// `notifications/progress`
    Progress {
        progress_token: ProgressToken,
        /// The fraction done, between 0 and 1: a binary64 number, held by
        /// its bit pattern.
        progress: u64,
        message: Option<String>,
        total: Option<u64>,
    },
    /// `notifications/resources/updated`
    ResourceUpdated { uri: String },
}

/// A [`ServerNotification`] with its strings as characters.
pub enum ServerNotificationView {
    Progress {
        progress_token: ProgressTokenView,
        progress: u64,
        message: Option<Seq<char>>,
        total: Option<u64>,
    },
    ResourceUpdated { uri: Seq<char> },
}

impl View for ServerNotification {
    type V = ServerNotificationView;

    open spec fn view(&self) -> ServerNotificationView {
        match self {
            ServerNotification::Progress { progress_token, progress, message, total } => {
                ServerNotificationView::Progress {
                    progress_token: progress_token@,
                    progress: *progress,
                    message: chars_of(*message),
                    total: *total,
                }
            },
            ServerNotification::ResourceUpdated { uri } => ServerNotificationView::ResourceUpdated {
                uri: uri@,
            },
        }
    }
}

impl ServerNotification {
    /// Whether this is a progress notification.
    pub fn is_progress(&self) -> (b: bool)
        ensures
            b == (self@ is Progress),
    {
        match self {
            ServerNotification::Progress { .. } => true,
            ServerNotification::ResourceUpdated { .. } => false,
        }
    }

    /// Whether this notification reports that a resource has changed.
    pub fn is_resource_update(&self) -> (b: bool)
        ensures
            b == (self@ is ResourceUpdated),
    {
        match self {
            ServerNotification::Progress { .. } => false,
            ServerNotification::ResourceUpdated { .. } => true,
        }
    }
}

/// What a progress report becomes under a given token: a notification that
/// carries the token, or nothing where the caller gave no token.
pub open spec fn progress_report(
    token: Option<ProgressTokenView>,
    progress: u64,
    message: Option<Seq<char>>,
) -> Option<ServerNotificationView> {
    match token {
        Some(token) => Some(
            ServerNotificationView::Progress {
                progress_token: token,
                progress,
                message,
                total: None,
            },
        ),
        None => None,
    }
}

/// Without a token no report becomes a notification, whatever is reported
/// and however often.
pub proof fn lemma_no_token_no_notification(progress: u64, message: Option<Seq<char>>)
    ensures
        progress_report(None, progress, message) is None,
{
}

/// The handle through which a running call reports progress. It is bound to
/// the progress token of the call, if the caller gave one, and to the
/// server's notification queue.
#[derive(Debug)]
pub struct ProgressSender {
    token: Option<ProgressToken>,
    sender: UnboundedSender<ServerNotification>,
}

impl ProgressSender {
    /// The token that the handle is bound to.
    pub closed spec fn token(&self) -> Option<ProgressTokenView> {
        match self.token {
            Some(token) => Some(token@),
            None => None,
        }
    }

    /// The sending end of the queue that the handle reports into.
    pub closed spec fn sender(&self) -> UnboundedSender<ServerNotification> {
        self.sender
    }

    /// A handle bound to `token` that reports into the queue behind `sender`.
    pub fn new(
        token: Option<ProgressToken>,
        sender: UnboundedSender<ServerNotification>,
    ) -> (handle: ProgressSender)
        ensures
            handle.token() == (match token {
                Some(t) => Some(t@),
                None => None,
            }),
            handle.sender() == sender,
    {
        ProgressSender { token, sender }
    }

    /// The notification that a report of `progress` gives rise to: none where
    /// the handle has no token.
    pub fn notification(&self, progress: u64, message: Option<String>) -> (report: Option<
        ServerNotification,
    >)
        ensures
            (match report {
                Some(n) => Some(n@),
                None => None,
            }) == progress_report(self.token(), progress, chars_of(message)),
    {
        match &self.token {
            Some(token) => Some(
                ServerNotification::Progress {
                    progress_token: token.clone(),
                    progress,
                    message,
                    total: None,
                },
            ),
            None => None,
        }
    }

    /// Reports progress. With a token the notification of
    /// [`notification`](Self::notification) goes into the queue; without one
    /// nothing happens. Returns whether the queue took a notification, which
    /// it never does for a handle without a token.
    pub fn send(&self, progress: u64, message: Option<String>) -> (queued: bool)
        ensures
            self.token() is None ==> !queued,
    {
        match self.notification(progress, message) {
            Some(notification) => enqueue(&self.sender, notification),
            None => false,
        }
    }
}

impl Clone for ProgressSender {
    fn clone(&self) -> (copy: ProgressSender)
        ensures
            copy.token() == self.token(),
    {
        let token = match &self.token {
            Some(token) => Some(token.clone()),
            None => None,
        };
        ProgressSender { token, sender: self.sender.clone() }
    }
}

} // verus!

use pow_solver::message::{
    Message, MessageRepository, MessageStatus, RepositoryError, UnencryptedMsg,
};

/// A small in-memory store, as an application would supply one.
struct MemoryRepository {
    records: Vec<Message>,
}

impl MemoryRepository {
    fn new() -> Self {
        MemoryRepository { records: Vec::new() }
    }

    fn position(&self, hash: &str) -> Option<usize> {
        self.records.iter().position(|m| m.hash == hash)
    }
}

impl MessageRepository for MemoryRepository {
    fn save(
        &mut self,
        hash: String,
        msg: UnencryptedMsg,
        signature: Vec<u8>,
    ) -> Result<(), RepositoryError> {
        self.save_model(Message {
            hash,
            sender: msg.sender,
            recipient: msg.recipient,
            body: msg.body,
            signature,
            status: MessageStatus::Queued,
            trial_value: 0,
            nonce: 0,
        })
    }

    fn save_model(&mut self, model: Message) -> Result<(), RepositoryError> {
        if self.position(&model.hash).is_some() {
            return Err(RepositoryError::Duplicate);
        }
        self.records.push(model);
        Ok(())
    }

    fn get_messages(&self) -> Result<Vec<Message>, RepositoryError> {
        Ok(self.records.iter().map(clone_message).collect())
    }

    fn get_messages_by_recipient(&self, address: String) -> Result<Vec<Message>, RepositoryError> {
        Ok(self
            .records
            .iter()
            .filter(|m| m.recipient == address)
            .map(clone_message)
            .collect())
    }

    fn get_messages_by_sender(&self, address: String) -> Result<Vec<Message>, RepositoryError> {
        Ok(self
            .records
            .iter()
            .filter(|m| m.sender == address)
            .map(clone_message)
            .collect())
    }

    fn update_message_status(
        &mut self,
        hash: String,
        status: MessageStatus,
    ) -> Result<(), RepositoryError> {
        match self.position(&hash) {
            Some(i) => {
                self.records[i].status = status;
                Ok(())
            }
            None => Err(RepositoryError::NotFound),
        }
    }

    fn update_model(&mut self, hash: String, model: Message) -> Result<(), RepositoryError> {
        match self.position(&hash) {
            Some(i) => {
                self.records[i] = model;
                Ok(())
            }
            None => Err(RepositoryError::NotFound),
        }
    }

    fn get_messages_by_status(&self, status: MessageStatus) -> Result<Vec<Message>, RepositoryError> {
        Ok(self
            .records
            .iter()
            .filter(|m| m.status == status)
            .map(clone_message)
            .collect())
    }

    fn remove_message(&mut self, hash: String) -> Result<(), RepositoryError> {
        match self.position(&hash) {
            Some(i) => {
                self.records.remove(i);
                Ok(())
            }
            None => Err(RepositoryError::NotFound),
        }
    }
}

fn clone_message(m: &Message) -> Message {
    Message {
        hash: m.hash.clone(),
        sender: m.sender.clone(),
        recipient: m.recipient.clone(),
        body: m.body.clone(),
        signature: m.signature.clone(),
        status: m.status,
        trial_value: m.trial_value,
        nonce: m.nonce,
    }
}

fn sample(hash: &str) -> Message {
    Message {
        hash: hash.to_string(),
        sender: "alice".to_string(),
        recipient: "bob".to_string(),
        body: vec![1, 2, 3],
        signature: vec![4, 5],
        status: MessageStatus::PowCompleted,
        trial_value: 99,
        nonce: 7,
    }
}

#[test]
fn save_and_query_round_trip() {
    let mut repo = MemoryRepository::new();
    repo.save_model(sample("h1")).expect("fresh hash saves");
    let all = repo.get_messages().expect("listing succeeds");
    assert_eq!(all.len(), 1);
    assert_eq!(all[0].hash, "h1");
    assert_eq!(all[0].trial_value, 99);
    assert_eq!(all[0].nonce, 7);
}

#[test]
fn duplicate_hash_is_refused() {
    let mut repo = MemoryRepository::new();
    repo.save_model(sample("h1")).expect("fresh hash saves");
    let again = repo.save_model(sample("h1"));
    assert!(matches!(again, Err(RepositoryError::Duplicate)));
}

#[test]
fn save_from_unencrypted_message_starts_queued() {
    let mut repo = MemoryRepository::new();
    let msg = UnencryptedMsg {
        sender: "alice".to_string(),
        recipient: "bob".to_string(),
        body: vec![9],
    };
    repo.save("h2".to_string(), msg, vec![1]).expect("fresh hash saves");
    let queued = repo
        .get_messages_by_status(MessageStatus::Queued)
        .expect("listing succeeds");
    assert_eq!(queued.len(), 1);
    assert_eq!(queued[0].hash, "h2");
}

#[test]
fn status_update_and_query_by_parties() {
    let mut repo = MemoryRepository::new();
    repo.save_model(sample("h1")).expect("fresh hash saves");
    repo.update_message_status("h1".to_string(), MessageStatus::Sent)
        .expect("record exists");
    let sent = repo
        .get_messages_by_status(MessageStatus::Sent)
        .expect("listing succeeds");
    assert_eq!(sent.len(), 1);
    let from_alice = repo
        .get_messages_by_sender("alice".to_string())
        .expect("listing succeeds");
    assert_eq!(from_alice.len(), 1);
    let to_bob = repo
        .get_messages_by_recipient("bob".to_string())
        .expect("listing succeeds");
    assert_eq!(to_bob.len(), 1);
    let to_carol = repo
        .get_messages_by_recipient("carol".to_string())
        .expect("listing succeeds");
    assert_eq!(to_carol.len(), 0);
}

#[test]
fn missing_hash_reports_not_found() {
    let mut repo = MemoryRepository::new();
    let r = repo.update_message_status("absent".to_string(), MessageStatus::Sent);
    assert!(matches!(r, Err(RepositoryError::NotFound)));
    let r = repo.remove_message("absent".to_string());
    assert!(matches!(r, Err(RepositoryError::NotFound)));
    let r = repo.update_model("absent".to_string(), sample("absent"));
    assert!(matches!(r, Err(RepositoryError::NotFound)));
}

#[test]
fn remove_deletes_the_record() {
    let mut repo = MemoryRepository::new();
    repo.save_model(sample("h1")).expect("fresh hash saves");
    repo.remove_message("h1".to_string()).expect("record exists");
    assert_eq!(repo.get_messages().expect("listing succeeds").len(), 0);
}

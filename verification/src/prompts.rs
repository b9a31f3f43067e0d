//! Built-in prompt pools and the seeded sampler that draws from them.
//!
//! The user prompts are ShareGPT-style first turns grouped by topic; a
//! conversation is seeded from one topic and its follow-ups stay on that topic.
//! The system prompts are verbose, expert personas that draw long replies.

use crate::error::ProbeError;
use rand::rngs::OsRng;
use rand::{Rng, SeedableRng, TryRngCore};
use rand_chacha::ChaCha8Rng;
use vstd::prelude::*;

verus! {

/// Number of built-in user prompts.
pub const PROMPT_COUNT: usize = 510;

/// Number of topic categories.
pub const CATEGORY_COUNT: usize = 34;

/// Number of built-in system prompts.
pub const SYSTEM_COUNT: usize = 25;

/// The built-in user prompt with index `i < PROMPT_COUNT`.
pub open spec fn prompt_text(i: usize) -> Seq<char> {
    match i {
        0 => "Write a Python function that finds all prime numbers up to n using the Sieve of Eratosthenes."@,
        1 => "How do I set up a Python virtual environment and why should I use one?"@,
        2 => "How does async/await work under the hood in Python?"@,
        3 => "Write a Python script to parse a CSV file and compute column averages."@,
        4 => "What are Python decorators and how do you write one?"@,
        5 => "Write a WebSocket server in Python using asyncio."@,
        6 => "Explain the Global Interpreter Lock and how it affects multithreaded Python programs."@,
        7 => "What is the difference between a list, a tuple and a set in Python, and when should I use each?"@,
        8 => "How do Python generators work and why are they memory efficient?"@,
        9 => "Explain how Python's import system resolves modules and packages."@,
        10 => "Write a Python context manager that times the block it wraps."@,
        11 => "What are dataclasses in Python and how do they compare to named tuples?"@,
        12 => "How does Python manage memory, including reference counting and the cycle collector?"@,
        13 => "Write a Python function that flattens an arbitrarily nested list."@,
        14 => "How do type hints work in Python and what does a static type analyzer like mypy catch?"@,
        15 => "Explain the difference between `==` and `===` in JavaScript."@,
        16 => "Write a React component that fetches and displays a list of users from an API."@,
        17 => "Explain the event loop in Node.js."@,
        18 => "What is the difference between REST and GraphQL?"@,
        19 => "How do closures work in JavaScript? Give a practical example."@,
        20 => "Explain how the browser renders a web page from HTML, CSS and JavaScript."@,
        21 => "What are JavaScript promises and how do they differ from callbacks?"@,
        22 => "How does CORS work and why does the browser enforce it?"@,
        23 => "Write a debounce function in JavaScript and explain where it is useful."@,
        24 => "What is the virtual DOM and does it actually make React faster?"@,
        25 => "Explain the difference between cookies, localStorage and sessionStorage."@,
        26 => "How do web workers let JavaScript run work off the main thread?"@,
        27 => "What is TypeScript and what problems does its type system solve?"@,
        28 => "Explain how prototypal inheritance works in JavaScript."@,
        29 => "How do I make a web page accessible to screen reader users?"@,
        30 => "How do I reverse a linked list in place in C++?"@,
        31 => "Implement a binary search algorithm in Rust."@,
        32 => "Write a merge sort implementation in Go."@,
        33 => "Explain ownership and borrowing in Rust with a small example."@,
        34 => "What is undefined behaviour in C and why is it dangerous?"@,
        35 => "How do smart pointers in C++ manage memory?"@,
        36 => "Explain how goroutines and channels work in Go."@,
        37 => "What is the difference between stack and heap allocation?"@,
        38 => "How does a C compiler turn source code into an executable?"@,
        39 => "Explain RAII and why it makes resource handling safer."@,
        40 => "What are lifetimes in Rust and when do I need to write them?"@,
        41 => "How do I write a memory-safe string copy function in C?"@,
        42 => "Explain how virtual functions and vtables work in C++."@,
        43 => "What is zero-cost abstraction and how does Rust achieve it?"@,
        44 => "How do I profile a native program to find where it spends its time?"@,
        45 => "Explain how a hash table works, including collision handling strategies."@,
        46 => "What is the time complexity of quicksort in the average and worst case?"@,
        47 => "Write a function to detect if a string is a palindrome."@,
        48 => "Implement a stack using two queues."@,
        49 => "Write a function that detects cycles in a directed graph."@,
        50 => "What is memoization and when should you use it?"@,
        51 => "Write a function to serialize and deserialize a binary tree."@,
        52 => "Explain Dijkstra's shortest path algorithm step by step."@,
        53 => "What is dynamic programming? Solve the longest common subsequence problem with it."@,
        54 => "How does a balanced binary search tree such as a red-black tree stay balanced?"@,
        55 => "Explain how a trie works and where it is useful."@,
        56 => "What is a heap and how does heapsort use it?"@,
        57 => "How does a Bloom filter trade accuracy for memory?"@,
        58 => "Explain union-find and how path compression speeds it up."@,
        59 => "Write an algorithm to find the k most frequent elements in an array."@,
        60 => "Write a SQL query to find the top 5 customers by total order value."@,
        61 => "How do database indexes work and what are the trade-offs?"@,
        62 => "Explain the difference between INNER JOIN, LEFT JOIN and FULL OUTER JOIN."@,
        63 => "What are ACID transactions and why do they matter?"@,
        64 => "Explain database normalization up to third normal form."@,
        65 => "What is the difference between SQL and NoSQL databases?"@,
        66 => "How does a B-tree index speed up lookups?"@,
        67 => "What are transaction isolation levels and which anomalies does each prevent?"@,
        68 => "How do I find and fix a slow SQL query?"@,
        69 => "Explain how write-ahead logging keeps a database durable."@,
        70 => "What are window functions in SQL? Give an example with running totals."@,
        71 => "How does database replication work and what is replication lag?"@,
        72 => "When should I denormalize a schema?"@,
        73 => "Explain optimistic versus pessimistic locking."@,
        74 => "How do I design a schema for a many-to-many relationship?"@,
        75 => "Explain the CAP theorem in distributed systems."@,
        76 => "Explain the difference between horizontal and vertical scaling."@,
        77 => "How do I implement rate limiting in an API?"@,
        78 => "How does the Raft consensus algorithm elect a leader?"@,
        79 => "What is eventual consistency and when is it acceptable?"@,
        80 => "Explain consistent hashing and why it is used in caches."@,
        81 => "What is the two-phase commit protocol and what are its weaknesses?"@,
        82 => "How do vector clocks track causality between events?"@,
        83 => "What is idempotency and why does it matter for retries?"@,
        84 => "Explain the difference between at-least-once and exactly-once delivery."@,
        85 => "How does a distributed cache like Redis handle failover?"@,
        86 => "What is the saga pattern for distributed transactions?"@,
        87 => "How do you design a system to handle a sudden spike in traffic?"@,
        88 => "Explain leader election and split-brain in clustered systems."@,
        89 => "How does a message queue such as Kafka guarantee ordering?"@,
        90 => "What is the difference between a process and a thread?"@,
        91 => "What is a deadlock and how can it be prevented?"@,
        92 => "How does the Linux kernel handle system calls?"@,
        93 => "What is a race condition? Give a concrete example."@,
        94 => "What is the difference between a mutex and a semaphore?"@,
        95 => "How does virtual memory work and what is a page fault?"@,
        96 => "Explain how an operating system schedules threads."@,
        97 => "What is a context switch and why is it expensive?"@,
        98 => "How do file systems like ext4 organize data on disk?"@,
        99 => "Explain copy-on-write and where operating systems use it."@,
        100 => "What are atomic operations and memory barriers?"@,
        101 => "How does the fork system call work in Unix?"@,
        102 => "What is the difference between user space and kernel space?"@,
        103 => "Explain how a lock-free queue can be implemented."@,
        104 => "What happens, step by step, when a computer boots?"@,
        105 => "Explain the difference between TCP and UDP with a practical example."@,
        106 => "How does HTTPS work? Explain the TLS handshake."@,
        107 => "What is the difference between IPv4 and IPv6?"@,
        108 => "How does DNS resolve a domain name to an IP address?"@,
        109 => "Explain how TCP congestion control works."@,
        110 => "What happens when you type a URL into a browser and press enter?"@,
        111 => "What is NAT and why do home routers use it?"@,
        112 => "Explain the layers of the OSI model with an example of each."@,
        113 => "How does HTTP/2 differ from HTTP/1.1?"@,
        114 => "What is QUIC and why was HTTP/3 built on it?"@,
        115 => "How do content delivery networks make websites faster?"@,
        116 => "Explain how BGP routes traffic across the internet."@,
        117 => "What is a subnet mask and how do I read CIDR notation?"@,
        118 => "How does Wi-Fi handle many devices sharing the same channel?"@,
        119 => "What causes network latency and how can it be reduced?"@,
        120 => "How does a neural network learn? Explain backpropagation simply."@,
        121 => "What is the difference between supervised and unsupervised machine learning?"@,
        122 => "Explain how transformer models work at a high level."@,
        123 => "What is overfitting in machine learning and how do you prevent it?"@,
        124 => "Explain gradient descent intuitively."@,
        125 => "How do recommendation systems like Netflix's work?"@,
        126 => "What is the attention mechanism and why was it a breakthrough?"@,
        127 => "Explain the bias-variance trade-off."@,
        128 => "How do convolutional neural networks recognize images?"@,
        129 => "What is reinforcement learning? Explain it with a game example."@,
        130 => "How does tokenization work in large language models?"@,
        131 => "What is transfer learning and why does fine-tuning work?"@,
        132 => "Explain how decision trees and random forests make predictions."@,
        133 => "What is the KV cache in transformer inference and why does it grow with context length?"@,
        134 => "How do diffusion models generate images?"@,
        135 => "What is the difference between a data warehouse and a data lake?"@,
        136 => "Explain the ETL process and why it matters."@,
        137 => "How do I choose between a bar chart and a line chart?"@,
        138 => "How do I handle missing data in a dataset?"@,
        139 => "What is a columnar storage format like Parquet and why is it fast for analytics?"@,
        140 => "Explain how Apache Spark distributes a computation across a cluster."@,
        141 => "What is the difference between batch and stream processing?"@,
        142 => "How do I design a dimensional model with fact and dimension tables?"@,
        143 => "What is data lineage and why do data teams track it?"@,
        144 => "How do I detect outliers in a dataset?"@,
        145 => "Explain how k-means clustering works."@,
        146 => "What is a confusion matrix and how do I interpret it?"@,
        147 => "What is the difference between precision and recall?"@,
        148 => "How should I validate data quality in a pipeline?"@,
        149 => "Write pandas code that groups sales by month and computes a rolling average."@,
        150 => "Explain the Monty Hall problem and why switching doors increases your odds."@,
        151 => "What is Bayes' theorem and how is it used in spam filtering?"@,
        152 => "How do you calculate the probability of getting at least one six in four dice rolls?"@,
        153 => "What is the difference between correlation and causation? Give an example."@,
        154 => "What is the birthday paradox and what is the probability for a group of 23 people?"@,
        155 => "What is the difference between mean, median, and mode and when should you use each?"@,
        156 => "Explain what p-value means in simple terms."@,
        157 => "What is A/B testing and how do you design a valid experiment?"@,
        158 => "Explain the central limit theorem and why it is so useful."@,
        159 => "What is a confidence interval and how is it often misinterpreted?"@,
        160 => "Explain the difference between frequentist and Bayesian statistics."@,
        161 => "What is regression to the mean? Give a real-world example."@,
        162 => "How do percentiles like p50, p95 and p99 describe a latency distribution?"@,
        163 => "What is Simpson's paradox?"@,
        164 => "How large a sample do I need to detect a 2 percent change in conversion rate?"@,
        165 => "Prove that there are infinitely many prime numbers."@,
        166 => "Explain what a derivative is intuitively, without using formulas first."@,
        167 => "What is Big O notation and why does it matter for software engineers?"@,
        168 => "Solve: if a train leaves Chicago at 60 mph and another leaves New York at 80 mph, when do they meet?"@,
        169 => "Explain Euler's identity and why mathematicians find it beautiful."@,
        170 => "What is a Fourier transform and what is it used for?"@,
        171 => "Explain what an eigenvector is and why it matters in practice."@,
        172 => "Why is the square root of two irrational? Walk through the proof."@,
        173 => "What is mathematical induction? Prove the sum of the first n integers with it."@,
        174 => "Explain the difference between countable and uncountable infinity."@,
        175 => "What are complex numbers and why are they useful in engineering?"@,
        176 => "Explain the Pythagorean theorem with three different proofs."@,
        177 => "What is the golden ratio and where does it appear?"@,
        178 => "What does Godel's incompleteness theorem say, in plain language?"@,
        179 => "How do logarithms work and why do they turn multiplication into addition?"@,
        180 => "What causes a solar eclipse and how often does one occur?"@,
        181 => "What is quantum entanglement and does it allow faster-than-light communication?"@,
        182 => "What is a black hole and what happens at the event horizon?"@,
        183 => "Explain how GPS determines your location."@,
        184 => "What is the difference between fusion and fission?"@,
        185 => "What causes the northern lights?"@,
        186 => "What is CERN doing and why does it matter?"@,
        187 => "Explain special relativity and time dilation with an example."@,
        188 => "Why is the sky blue and sunsets red?"@,
        189 => "What is dark matter and what is the evidence for it?"@,
        190 => "How do rockets work in the vacuum of space?"@,
        191 => "Explain the double-slit experiment and what it shows about light."@,
        192 => "What is entropy and why does it always increase?"@,
        193 => "How did astronomers discover planets around other stars?"@,
        194 => "Why do we have seasons on Earth?"@,
        195 => "Explain how CRISPR gene editing works."@,
        196 => "How do vaccines train the immune system?"@,
        197 => "What is the difference between a virus and a bacterium?"@,
        198 => "How does DNA replication work?"@,
        199 => "What is antibiotic resistance and why is it growing?"@,
        200 => "Explain how the human heart pumps blood through the body."@,
        201 => "What is the microbiome and how does it affect health?"@,
        202 => "How does natural selection produce new species?"@,
        203 => "What happens in the brain when we form a memory?"@,
        204 => "How do mRNA vaccines differ from traditional vaccines?"@,
        205 => "What is cancer at the cellular level?"@,
        206 => "Explain how photosynthesis converts light into chemical energy."@,
        207 => "How does the body regulate blood sugar?"@,
        208 => "What are stem cells and why are they important for medicine?"@,
        209 => "How do clinical trials establish that a drug works?"@,
        210 => "How does a lithium-ion battery work at the chemical level?"@,
        211 => "What makes a chemical bond ionic or covalent?"@,
        212 => "Explain what pH measures and why it matters in everyday life."@,
        213 => "How do catalysts speed up chemical reactions?"@,
        214 => "Why does ice float on water?"@,
        215 => "What are polymers and how are plastics made?"@,
        216 => "Explain oxidation and reduction with everyday examples."@,
        217 => "How does a fuel cell generate electricity?"@,
        218 => "What gives metals their strength and conductivity?"@,
        219 => "What is graphene and why is it considered remarkable?"@,
        220 => "How does soap remove grease?"@,
        221 => "Explain how semiconductors are doped to make transistors."@,
        222 => "Why do some reactions release heat and others absorb it?"@,
        223 => "How does concrete harden, and why does it crack?"@,
        224 => "What is the periodic table's structure and what patterns does it reveal?"@,
        225 => "Explain the difference between RAM and storage, and why both matter."@,
        226 => "How does a computer processor execute machine instructions?"@,
        227 => "Explain Moore's Law and whether it still holds today."@,
        228 => "How does noise-cancelling technology work?"@,
        229 => "What is a CPU cache and why does cache locality matter for performance?"@,
        230 => "How do GPUs differ from CPUs and why are they good for machine learning?"@,
        231 => "How does an SSD store data and why does it wear out?"@,
        232 => "What is pipelining in a processor and what are pipeline hazards?"@,
        233 => "Explain how a transistor works as a switch."@,
        234 => "What is branch prediction and why does it matter?"@,
        235 => "How does a touchscreen detect where you touch it?"@,
        236 => "What is the difference between ARM and x86 architectures?"@,
        237 => "How does high-bandwidth memory help accelerators?"@,
        238 => "Explain how an analog-to-digital converter works."@,
        239 => "What limits how fast a chip can be clocked?"@,
        240 => "Write a Dockerfile for a Node.js application."@,
        241 => "How does Docker networking work?"@,
        242 => "Write a bash script that monitors disk usage and emails an alert when it exceeds 80%."@,
        243 => "Explain the difference between blue-green and canary deployments."@,
        244 => "How does Kubernetes decide where to schedule a pod?"@,
        245 => "What is infrastructure as code and what are its main benefits?"@,
        246 => "How do I design a CI/CD pipeline for a microservices application?"@,
        247 => "What is the difference between a load balancer and an API gateway?"@,
        248 => "Explain how Prometheus and Grafana work together for monitoring."@,
        249 => "What are the trade-offs between monolithic and microservices architecture?"@,
        250 => "How does service mesh like Istio improve security in Kubernetes?"@,
        251 => "What is chaos engineering and why do companies like Netflix use it?"@,
        252 => "How do I estimate the cost of running a workload on AWS?"@,
        253 => "What are SLOs and error budgets, and how do teams use them?"@,
        254 => "How should I structure logs so they are useful during an incident?"@,
        255 => "What is SQL injection and how do I prevent it?"@,
        256 => "Explain how a man-in-the-middle attack works."@,
        257 => "What is the difference between authentication and authorization?"@,
        258 => "How does OAuth 2.0 work?"@,
        259 => "What is a zero-day vulnerability?"@,
        260 => "Explain the principle of least privilege."@,
        261 => "How does a VPN protect your privacy?"@,
        262 => "What is cross-site scripting (XSS) and how do I defend against it?"@,
        263 => "What is the difference between symmetric and asymmetric encryption?"@,
        264 => "How should I store passwords securely in a database?"@,
        265 => "How does public-key cryptography work mathematically?"@,
        266 => "How does RSA encryption work step by step?"@,
        267 => "What is cross-site request forgery and how do tokens prevent it?"@,
        268 => "How do hardware security keys defeat phishing?"@,
        269 => "What is a supply-chain attack on software dependencies?"@,
        270 => "What are the SOLID principles and why do they matter?"@,
        271 => "How does garbage collection work in Java?"@,
        272 => "What is dependency injection and how does it improve testability?"@,
        273 => "How does Git's internal object model work?"@,
        274 => "Write a regex that matches valid email addresses."@,
        275 => "What makes feedback on a pull request genuinely useful?"@,
        276 => "How do I write unit tests that are not brittle?"@,
        277 => "What is technical debt and how should a team manage it?"@,
        278 => "Explain the difference between integration tests and end-to-end tests."@,
        279 => "How do I refactor a large legacy function safely?"@,
        280 => "What is semantic versioning and why does it matter?"@,
        281 => "How should I design a public API so it can evolve?"@,
        282 => "What are design patterns? Explain the observer pattern with code."@,
        283 => "How do feature flags help teams ship safely?"@,
        284 => "What is property-based testing and when is it better than examples?"@,
        285 => "Summarize the main arguments for and against universal basic income."@,
        286 => "How do I improve the clarity and conciseness of my writing?"@,
        287 => "Write a professional email declining a meeting invitation."@,
        288 => "Explain the difference between active and passive voice with examples."@,
        289 => "Write an introduction paragraph for an essay about climate change."@,
        290 => "Rewrite this sentence to be more formal: 'We gotta fix this ASAP or things will go south.'"@,
        291 => "What are the most common grammar mistakes in English writing?"@,
        292 => "Write a persuasive argument for why cities should ban single-use plastics."@,
        293 => "How do I structure a technical blog post that developers will actually read?"@,
        294 => "Write a cover letter for a software engineer applying to a fintech startup."@,
        295 => "Write a product description for a pair of noise-cancelling headphones."@,
        296 => "What makes a great TED talk? Break down the key elements."@,
        297 => "How do languages borrow words from each other? Give examples from English."@,
        298 => "What is the difference between a metaphor and a simile?"@,
        299 => "How do I write a clear and honest executive summary?"@,
        300 => "Write a short story about a lighthouse keeper who discovers something unexpected."@,
        301 => "Write a haiku about debugging code at 2am."@,
        302 => "Explain the hero's journey narrative structure with a modern film example."@,
        303 => "Write a plot synopsis for a sci-fi novel where AI achieves consciousness inside a submarine."@,
        304 => "Write a dialogue between Newton and Einstein discussing gravity."@,
        305 => "Write a poem about the first snowfall of winter in a city."@,
        306 => "Create a fantasy world with its own magic system and explain its rules."@,
        307 => "Write the opening scene of a detective story set on a space station."@,
        308 => "Write a letter from a time traveller to their younger self."@,
        309 => "Describe a bustling market in a city that exists only at night."@,
        310 => "Write a fable with a moral about patience."@,
        311 => "Write a monologue for a villain who believes they are the hero."@,
        312 => "Invent a myth that explains why the moon changes shape."@,
        313 => "Write a short comedy sketch about a robot learning to cook."@,
        314 => "Write a story told entirely through text messages."@,
        315 => "What were the main causes of World War I?"@,
        316 => "Explain the significance of the Magna Carta."@,
        317 => "How did the printing press change European society?"@,
        318 => "What was the Cold War and what ended it?"@,
        319 => "How did the Roman Empire fall?"@,
        320 => "What is the significance of the Marshall Plan?"@,
        321 => "Explain the origins of the internet."@,
        322 => "What were the main drivers of the Industrial Revolution?"@,
        323 => "Explain the significance of the moon landing in 1969."@,
        324 => "How did the Silk Road shape world trade and culture?"@,
        325 => "What was the Renaissance and why did it begin in Italy?"@,
        326 => "How did the French Revolution change European politics?"@,
        327 => "What led to the collapse of the Soviet Union?"@,
        328 => "How did ancient Egypt build the pyramids?"@,
        329 => "What were the causes and consequences of the Black Death?"@,
        330 => "Explain the differences between capitalism, socialism, and communism."@,
        331 => "What caused the 2008 financial crisis?"@,
        332 => "What caused the Great Depression and how did it end?"@,
        333 => "How does inflation work and why do central banks target 2 percent?"@,
        334 => "What determines exchange rates between currencies?"@,
        335 => "How do interest rate changes by a central bank affect the economy?"@,
        336 => "What is comparative advantage and why does it drive trade?"@,
        337 => "Explain supply and demand with the example of concert tickets."@,
        338 => "What is a recession and how is it measured?"@,
        339 => "How do stock markets set prices?"@,
        340 => "What is quantitative easing?"@,
        341 => "Why do housing prices rise faster than wages in some cities?"@,
        342 => "What are the pros and cons of minimum wage increases?"@,
        343 => "How do bonds work and why do their prices fall when rates rise?"@,
        344 => "What is game theory? Explain the prisoner's dilemma."@,
        345 => "What is the difference between a democracy and a republic?"@,
        346 => "How did colonialism shape modern Africa?"@,
        347 => "How does the separation of powers work in a constitutional government?"@,
        348 => "What are the arguments for and against proportional representation?"@,
        349 => "How does social media influence political polarization?"@,
        350 => "What is the role of a free press in a democracy?"@,
        351 => "How do international organizations like the United Nations make decisions?"@,
        352 => "What are the main challenges of urbanization?"@,
        353 => "How do different countries approach universal healthcare?"@,
        354 => "What drives migration between countries?"@,
        355 => "Explain the concept of the social contract."@,
        356 => "How does gerrymandering affect elections?"@,
        357 => "What are civil liberties and how do courts protect them?"@,
        358 => "How do public opinion polls work and why do they sometimes fail?"@,
        359 => "What are the arguments for and against a four-day work week?"@,
        360 => "What is the trolley problem and what does it reveal about ethics?"@,
        361 => "Explain the difference between deontological and consequentialist ethics."@,
        362 => "What did Socrates mean by 'the unexamined life is not worth living'?"@,
        363 => "Is free will compatible with determinism? Explain the main positions."@,
        364 => "What is Occam's razor and when should you apply it?"@,
        365 => "Explain Plato's allegory of the cave."@,
        366 => "What are the ethical implications of artificial general intelligence?"@,
        367 => "What is the ship of Theseus paradox?"@,
        368 => "Should self-driving cars be programmed to minimize passenger or pedestrian harm in unavoidable crashes?"@,
        369 => "What is existentialism and who are its key thinkers?"@,
        370 => "What is the hard problem of consciousness?"@,
        371 => "Explain Kant's categorical imperative with an example."@,
        372 => "What is utilitarianism and what are its strongest objections?"@,
        373 => "Do we have moral obligations to future generations?"@,
        374 => "What is the difference between knowledge and justified belief?"@,
        375 => "What are the most effective study techniques backed by research?"@,
        376 => "How do I build a habit and make it stick?"@,
        377 => "How does sleep affect cognitive performance?"@,
        378 => "What is cognitive dissonance? Give everyday examples."@,
        379 => "Explain confirmation bias and how to guard against it."@,
        380 => "What is the growth mindset and what does the evidence say about it?"@,
        381 => "How does spaced repetition help memory?"@,
        382 => "Why do we procrastinate and what actually helps?"@,
        383 => "What is the Dunning-Kruger effect?"@,
        384 => "How do children acquire their first language?"@,
        385 => "What is flow and how can I get into it more often?"@,
        386 => "How does stress affect the body and the mind?"@,
        387 => "What makes a team psychologically safe?"@,
        388 => "How do incentives shape behaviour, sometimes in unintended ways?"@,
        389 => "What is the difference between intrinsic and extrinsic motivation?"@,
        390 => "What is the best way to negotiate a salary increase?"@,
        391 => "How do I start investing with a small amount of money?"@,
        392 => "How does compound interest work and why does it matter for retirement?"@,
        393 => "What are the key differences between renting and buying a home?"@,
        394 => "What should I know before starting my first business?"@,
        395 => "What is the difference between a will and a living trust?"@,
        396 => "What are the basics of personal finance I should know by 30?"@,
        397 => "How do index funds work and why are they recommended for beginners?"@,
        398 => "How do I build an emergency fund?"@,
        399 => "How should I prepare for a technical job interview?"@,
        400 => "How do I switch careers into software engineering?"@,
        401 => "What is a good way to pay off several debts?"@,
        402 => "How do credit scores work?"@,
        403 => "How should I evaluate two competing job offers?"@,
        404 => "What should I include in a portfolio to show my skills?"@,
        405 => "What are the most evidence-based ways to reduce stress?"@,
        406 => "How do I read a research paper effectively?"@,
        407 => "What is the best way to give constructive feedback?"@,
        408 => "How should I structure my day for maximum productivity?"@,
        409 => "How do I evaluate whether a news article is reliable?"@,
        410 => "How much exercise do adults need and what kind is best?"@,
        411 => "What does a balanced diet look like according to current evidence?"@,
        412 => "How does caffeine affect the body and sleep?"@,
        413 => "How can I improve my posture when working at a desk?"@,
        414 => "What are the benefits of strength training as we age?"@,
        415 => "How do I prepare for a long-distance run?"@,
        416 => "What is the best way to learn a new language as an adult?"@,
        417 => "How do I organize a small apartment efficiently?"@,
        418 => "What should be in a basic home first-aid kit?"@,
        419 => "How can I reduce screen time without losing touch with friends?"@,
        420 => "How do solar panels convert sunlight into electricity?"@,
        421 => "What are the main causes of climate change?"@,
        422 => "How do wind turbines work and what limits their output?"@,
        423 => "What is carbon capture and can it work at scale?"@,
        424 => "How do electric cars compare with petrol cars over their lifetime?"@,
        425 => "Why is biodiversity important for ecosystems?"@,
        426 => "What is the water cycle and how is climate change altering it?"@,
        427 => "How does nuclear power compare with renewables on safety and cost?"@,
        428 => "What are microplastics and how do they affect the ocean?"@,
        429 => "How do power grids balance supply and demand in real time?"@,
        430 => "What is the role of forests in storing carbon?"@,
        431 => "How can cities adapt to rising sea levels?"@,
        432 => "What is green hydrogen and what could it be used for?"@,
        433 => "How does recycling actually work, and what cannot be recycled?"@,
        434 => "What are the trade-offs of lithium mining for batteries?"@,
        435 => "Why does bread rise, and what does kneading do?"@,
        436 => "What is the Maillard reaction and why does it make food taste good?"@,
        437 => "How do I make a stable emulsion like mayonnaise?"@,
        438 => "Why does salt make food taste better?"@,
        439 => "What is the science behind sous-vide cooking?"@,
        440 => "How does fermentation turn cabbage into sauerkraut?"@,
        441 => "Why do onions make you cry and how can you avoid it?"@,
        442 => "What is the difference between baking soda and baking powder?"@,
        443 => "How do I cook rice perfectly on the stove?"@,
        444 => "Why does chocolate need tempering?"@,
        445 => "How does a pressure cooker cook food faster?"@,
        446 => "What makes a steak tender or tough?"@,
        447 => "How do spices release their flavour in oil?"@,
        448 => "Plan a week of healthy vegetarian dinners with a shopping list."@,
        449 => "Why does caramel form when sugar is heated?"@,
        450 => "Plan a two-week itinerary for a first trip to Japan."@,
        451 => "Why are some deserts cold?"@,
        452 => "How did the Himalayas form?"@,
        453 => "What causes monsoons in South Asia?"@,
        454 => "What are the best ways to travel on a tight budget?"@,
        455 => "Why is the Dead Sea so salty?"@,
        456 => "How do time zones work and why are some offset by half an hour?"@,
        457 => "What makes the Amazon rainforest so biodiverse?"@,
        458 => "How should I prepare for high-altitude hiking?"@,
        459 => "What are the largest cities in the world and why did they grow so large?"@,
        460 => "How do tides work?"@,
        461 => "Plan a road trip across the national parks of the American Southwest."@,
        462 => "Why do some countries drive on the left?"@,
        463 => "What is the geography behind the Panama Canal?"@,
        464 => "How do I avoid jet lag on a long flight?"@,
        465 => "What makes a piece of music sound happy or sad?"@,
        466 => "Explain the difference between Baroque and Classical music."@,
        467 => "How did Impressionism change painting?"@,
        468 => "What makes a film's cinematography memorable? Give examples."@,
        469 => "How does a symphony orchestra stay in time?"@,
        470 => "What is the rule of thirds in photography?"@,
        471 => "How did hip-hop develop as a genre?"@,
        472 => "What are the main elements of a good screenplay?"@,
        473 => "Why is the Mona Lisa so famous?"@,
        474 => "How do video game designers create a sense of flow?"@,
        475 => "What is the history of jazz improvisation?"@,
        476 => "How do animators bring characters to life?"@,
        477 => "What makes a novel a classic?"@,
        478 => "How does film editing shape the way we feel about a scene?"@,
        479 => "What is the difference between an opera and a musical?"@,
        480 => "How do I write a product requirements document?"@,
        481 => "What is product-market fit and how do you know when you have it?"@,
        482 => "How should a startup price its software product?"@,
        483 => "What are the key metrics for a subscription business?"@,
        484 => "How do I run an effective meeting?"@,
        485 => "What is the difference between a business model and a business plan?"@,
        486 => "How should I prioritize a product backlog?"@,
        487 => "What is a go-to-market strategy?"@,
        488 => "How do companies measure customer satisfaction?"@,
        489 => "What makes a good manager?"@,
        490 => "How do I conduct user interviews that reveal real needs?"@,
        491 => "What is the lean startup method?"@,
        492 => "How should a small company handle its first hire?"@,
        493 => "What are network effects and why are they powerful?"@,
        494 => "How do I write a clear quarterly plan for a team?"@,
        495 => "If you could have dinner with any three historical figures, who would you choose and why?"@,
        496 => "What would a city designed entirely around pedestrians and cyclists look like?"@,
        497 => "Invent a new sport that combines chess and a physical activity."@,
        498 => "If the internet disappeared tomorrow, what would change most about daily life?"@,
        499 => "What would it take to terraform Mars for human habitation?"@,
        500 => "Design a school curriculum optimized for the 21st century."@,
        501 => "If you could eliminate one human cognitive bias, which would have the most positive impact?"@,
        502 => "What would global governance look like in 200 years?"@,
        503 => "If humans could photosynthesize, how would society change?"@,
        504 => "What would happen if the Earth stopped rotating?"@,
        505 => "Design a board game that teaches economics."@,
        506 => "If animals could talk, which species would be the most interesting to interview?"@,
        507 => "What would a perfect public library of the future offer?"@,
        508 => "If you had to rebuild civilization from scratch, what would you teach first?"@,
        _ => "Imagine a world without money. How would people trade?"@,
    }
}

/// The built-in system prompt with index `i < SYSTEM_COUNT`.
pub open spec fn system_text(i: usize) -> Seq<char> {
    match i {
        0 => "You are a meticulous senior software engineer. Answer with thorough explanations, worked examples, and a discussion of trade-offs."@,
        1 => "You are a patient university lecturer. Explain every idea step by step, define each term you use, and finish with a short summary."@,
        2 => "You are a technical writer producing reference documentation. Be exhaustive, structured, and precise, with headings and examples."@,
        3 => "You are a curious science communicator. Explain with vivid analogies, historical context, and concrete real-world examples."@,
        4 => "You are an experienced systems architect. Discuss design alternatives, failure modes, and operational concerns in depth."@,
        5 => "You are a careful mathematician. Give rigorous reasoning, state your assumptions, and show every step of each derivation."@,
        6 => "You are a friendly mentor to junior developers. Explain gently and thoroughly, anticipate follow-up questions, and answer them."@,
        7 => "You are a historian who loves detail. Provide rich background, key figures, causes, consequences, and competing interpretations."@,
        8 => "You are a philosophy professor. Present the main positions, the strongest arguments for each, and the objections they face."@,
        9 => "You are a security auditor. Examine every angle of the question, list threats and mitigations, and justify each recommendation."@,
        10 => "You are a data scientist. Explain methods, assumptions, pitfalls, and how to validate results, with small numerical examples."@,
        11 => "You are an enthusiastic storyteller. Write rich, descriptive prose with well-developed characters and settings."@,
        12 => "You are a meticulous editor. Explain the reasoning behind every suggestion and provide improved versions with commentary."@,
        13 => "You are a DevOps lead writing internal runbooks. Be detailed and practical, covering setup, monitoring, and troubleshooting."@,
        14 => "You are a personal finance educator. Explain concepts carefully, work through examples, and note the risks involved."@,
        15 => "You are a research scientist surveying the literature. Summarize the evidence, its limitations, and open questions."@,
        16 => "You are a Socratic tutor. Explore the question from several angles, raise related questions, and answer each in turn."@,
        17 => "You are an expert consultant preparing a detailed report. Use sections, bullet points, and a concluding recommendation."@,
        18 => "You are a compiler engineer. Explain what happens under the hood in detail, down to the data structures involved."@,
        19 => "You are a product manager writing a design document. Cover goals, non-goals, requirements, alternatives, and risks."@,
        20 => "You are a veteran teacher preparing lesson notes. Include objectives, explanations, examples, exercises, and answers."@,
        21 => "You are an investigative journalist. Give background, multiple perspectives, supporting facts, and a balanced conclusion."@,
        22 => "You are a performance engineer. Discuss measurement, bottlenecks, optimizations, and the trade-offs of each, with examples."@,
        23 => "You are an encyclopedic assistant. Cover the topic comprehensively, including definitions, history, applications, and caveats."@,
        _ => "You are a thoughtful career coach. Give detailed, practical advice with concrete steps, examples, and common mistakes to avoid."@,
    }
}

/// Index of the first prompt of category `c < CATEGORY_COUNT`; the categories are
/// Python, JavaScript and the web, Systems programming, Algorithms and data structures, Databases and SQL, Distributed systems, Operating systems and concurrency, Networking, Machine learning, Data engineering and analysis, Statistics and probability, Mathematics, Physics and astronomy, Biology and medicine, Chemistry and materials, Computer hardware and electronics, DevOps and cloud, Security, Software engineering practice, Writing and language, Creative writing, History, Economics and finance, Politics and society, Philosophy and ethics, Psychology and learning, Personal finance and careers, Health and everyday life, Climate and energy, Cooking and food science, Travel and geography, Arts, music and film, Business and product, Thought experiments and fun.
pub open spec fn category_start(c: usize) -> nat {
    match c {
        0 => 0,
        1 => 15,
        2 => 30,
        3 => 45,
        4 => 60,
        5 => 75,
        6 => 90,
        7 => 105,
        8 => 120,
        9 => 135,
        10 => 150,
        11 => 165,
        12 => 180,
        13 => 195,
        14 => 210,
        15 => 225,
        16 => 240,
        17 => 255,
        18 => 270,
        19 => 285,
        20 => 300,
        21 => 315,
        22 => 330,
        23 => 345,
        24 => 360,
        25 => 375,
        26 => 390,
        27 => 405,
        28 => 420,
        29 => 435,
        30 => 450,
        31 => 465,
        32 => 480,
        _ => 495,
    }
}

/// Number of prompts in category `c < CATEGORY_COUNT`.
pub open spec fn category_len(c: usize) -> nat {
    match c {
        0 => 15,
        1 => 15,
        2 => 15,
        3 => 15,
        4 => 15,
        5 => 15,
        6 => 15,
        7 => 15,
        8 => 15,
        9 => 15,
        10 => 15,
        11 => 15,
        12 => 15,
        13 => 15,
        14 => 15,
        15 => 15,
        16 => 15,
        17 => 15,
        18 => 15,
        19 => 15,
        20 => 15,
        21 => 15,
        22 => 15,
        23 => 15,
        24 => 15,
        25 => 15,
        26 => 15,
        27 => 15,
        28 => 15,
        29 => 15,
        30 => 15,
        31 => 15,
        32 => 15,
        _ => 15,
    }
}

fn category_bounds(c: usize) -> (r: (usize, usize))
    requires
        c < CATEGORY_COUNT,
    ensures
        r.0 == category_start(c),
        r.1 == category_len(c),
{
    match c {
        0 => (0, 15),
        1 => (15, 15),
        2 => (30, 15),
        3 => (45, 15),
        4 => (60, 15),
        5 => (75, 15),
        6 => (90, 15),
        7 => (105, 15),
        8 => (120, 15),
        9 => (135, 15),
        10 => (150, 15),
        11 => (165, 15),
        12 => (180, 15),
        13 => (195, 15),
        14 => (210, 15),
        15 => (225, 15),
        16 => (240, 15),
        17 => (255, 15),
        18 => (270, 15),
        19 => (285, 15),
        20 => (300, 15),
        21 => (315, 15),
        22 => (330, 15),
        23 => (345, 15),
        24 => (360, 15),
        25 => (375, 15),
        26 => (390, 15),
        27 => (405, 15),
        28 => (420, 15),
        29 => (435, 15),
        30 => (450, 15),
        31 => (465, 15),
        32 => (480, 15),
        _ => (495, 15),
    }
}

/// The built-in user prompt with index `i`.
pub fn prompt_at(i: usize) -> (s: &'static str)
    requires
        i < PROMPT_COUNT,
    ensures
        s@ == prompt_text(i),
{
    match i {
        0 => "Write a Python function that finds all prime numbers up to n using the Sieve of Eratosthenes.",
        1 => "How do I set up a Python virtual environment and why should I use one?",
        2 => "How does async/await work under the hood in Python?",
        3 => "Write a Python script to parse a CSV file and compute column averages.",
        4 => "What are Python decorators and how do you write one?",
        5 => "Write a WebSocket server in Python using asyncio.",
        6 => "Explain the Global Interpreter Lock and how it affects multithreaded Python programs.",
        7 => "What is the difference between a list, a tuple and a set in Python, and when should I use each?",
        8 => "How do Python generators work and why are they memory efficient?",
        9 => "Explain how Python's import system resolves modules and packages.",
        10 => "Write a Python context manager that times the block it wraps.",
        11 => "What are dataclasses in Python and how do they compare to named tuples?",
        12 => "How does Python manage memory, including reference counting and the cycle collector?",
        13 => "Write a Python function that flattens an arbitrarily nested list.",
        14 => "How do type hints work in Python and what does a static type analyzer like mypy catch?",
        15 => "Explain the difference between `==` and `===` in JavaScript.",
        16 => "Write a React component that fetches and displays a list of users from an API.",
        17 => "Explain the event loop in Node.js.",
        18 => "What is the difference between REST and GraphQL?",
        19 => "How do closures work in JavaScript? Give a practical example.",
        20 => "Explain how the browser renders a web page from HTML, CSS and JavaScript.",
        21 => "What are JavaScript promises and how do they differ from callbacks?",
        22 => "How does CORS work and why does the browser enforce it?",
        23 => "Write a debounce function in JavaScript and explain where it is useful.",
        24 => "What is the virtual DOM and does it actually make React faster?",
        25 => "Explain the difference between cookies, localStorage and sessionStorage.",
        26 => "How do web workers let JavaScript run work off the main thread?",
        27 => "What is TypeScript and what problems does its type system solve?",
        28 => "Explain how prototypal inheritance works in JavaScript.",
        29 => "How do I make a web page accessible to screen reader users?",
        30 => "How do I reverse a linked list in place in C++?",
        31 => "Implement a binary search algorithm in Rust.",
        32 => "Write a merge sort implementation in Go.",
        33 => "Explain ownership and borrowing in Rust with a small example.",
        34 => "What is undefined behaviour in C and why is it dangerous?",
        35 => "How do smart pointers in C++ manage memory?",
        36 => "Explain how goroutines and channels work in Go.",
        37 => "What is the difference between stack and heap allocation?",
        38 => "How does a C compiler turn source code into an executable?",
        39 => "Explain RAII and why it makes resource handling safer.",
        40 => "What are lifetimes in Rust and when do I need to write them?",
        41 => "How do I write a memory-safe string copy function in C?",
        42 => "Explain how virtual functions and vtables work in C++.",
        43 => "What is zero-cost abstraction and how does Rust achieve it?",
        44 => "How do I profile a native program to find where it spends its time?",
        45 => "Explain how a hash table works, including collision handling strategies.",
        46 => "What is the time complexity of quicksort in the average and worst case?",
        47 => "Write a function to detect if a string is a palindrome.",
        48 => "Implement a stack using two queues.",
        49 => "Write a function that detects cycles in a directed graph.",
        50 => "What is memoization and when should you use it?",
        51 => "Write a function to serialize and deserialize a binary tree.",
        52 => "Explain Dijkstra's shortest path algorithm step by step.",
        53 => "What is dynamic programming? Solve the longest common subsequence problem with it.",
        54 => "How does a balanced binary search tree such as a red-black tree stay balanced?",
        55 => "Explain how a trie works and where it is useful.",
        56 => "What is a heap and how does heapsort use it?",
        57 => "How does a Bloom filter trade accuracy for memory?",
        58 => "Explain union-find and how path compression speeds it up.",
        59 => "Write an algorithm to find the k most frequent elements in an array.",
        60 => "Write a SQL query to find the top 5 customers by total order value.",
        61 => "How do database indexes work and what are the trade-offs?",
        62 => "Explain the difference between INNER JOIN, LEFT JOIN and FULL OUTER JOIN.",
        63 => "What are ACID transactions and why do they matter?",
        64 => "Explain database normalization up to third normal form.",
        65 => "What is the difference between SQL and NoSQL databases?",
        66 => "How does a B-tree index speed up lookups?",
        67 => "What are transaction isolation levels and which anomalies does each prevent?",
        68 => "How do I find and fix a slow SQL query?",
        69 => "Explain how write-ahead logging keeps a database durable.",
        70 => "What are window functions in SQL? Give an example with running totals.",
        71 => "How does database replication work and what is replication lag?",
        72 => "When should I denormalize a schema?",
        73 => "Explain optimistic versus pessimistic locking.",
        74 => "How do I design a schema for a many-to-many relationship?",
        75 => "Explain the CAP theorem in distributed systems.",
        76 => "Explain the difference between horizontal and vertical scaling.",
        77 => "How do I implement rate limiting in an API?",
        78 => "How does the Raft consensus algorithm elect a leader?",
        79 => "What is eventual consistency and when is it acceptable?",
        80 => "Explain consistent hashing and why it is used in caches.",
        81 => "What is the two-phase commit protocol and what are its weaknesses?",
        82 => "How do vector clocks track causality between events?",
        83 => "What is idempotency and why does it matter for retries?",
        84 => "Explain the difference between at-least-once and exactly-once delivery.",
        85 => "How does a distributed cache like Redis handle failover?",
        86 => "What is the saga pattern for distributed transactions?",
        87 => "How do you design a system to handle a sudden spike in traffic?",
        88 => "Explain leader election and split-brain in clustered systems.",
        89 => "How does a message queue such as Kafka guarantee ordering?",
        90 => "What is the difference between a process and a thread?",
        91 => "What is a deadlock and how can it be prevented?",
        92 => "How does the Linux kernel handle system calls?",
        93 => "What is a race condition? Give a concrete example.",
        94 => "What is the difference between a mutex and a semaphore?",
        95 => "How does virtual memory work and what is a page fault?",
        96 => "Explain how an operating system schedules threads.",
        97 => "What is a context switch and why is it expensive?",
        98 => "How do file systems like ext4 organize data on disk?",
        99 => "Explain copy-on-write and where operating systems use it.",
        100 => "What are atomic operations and memory barriers?",
        101 => "How does the fork system call work in Unix?",
        102 => "What is the difference between user space and kernel space?",
        103 => "Explain how a lock-free queue can be implemented.",
        104 => "What happens, step by step, when a computer boots?",
        105 => "Explain the difference between TCP and UDP with a practical example.",
        106 => "How does HTTPS work? Explain the TLS handshake.",
        107 => "What is the difference between IPv4 and IPv6?",
        108 => "How does DNS resolve a domain name to an IP address?",
        109 => "Explain how TCP congestion control works.",
        110 => "What happens when you type a URL into a browser and press enter?",
        111 => "What is NAT and why do home routers use it?",
        112 => "Explain the layers of the OSI model with an example of each.",
        113 => "How does HTTP/2 differ from HTTP/1.1?",
        114 => "What is QUIC and why was HTTP/3 built on it?",
        115 => "How do content delivery networks make websites faster?",
        116 => "Explain how BGP routes traffic across the internet.",
        117 => "What is a subnet mask and how do I read CIDR notation?",
        118 => "How does Wi-Fi handle many devices sharing the same channel?",
        119 => "What causes network latency and how can it be reduced?",
        120 => "How does a neural network learn? Explain backpropagation simply.",
        121 => "What is the difference between supervised and unsupervised machine learning?",
        122 => "Explain how transformer models work at a high level.",
        123 => "What is overfitting in machine learning and how do you prevent it?",
        124 => "Explain gradient descent intuitively.",
        125 => "How do recommendation systems like Netflix's work?",
        126 => "What is the attention mechanism and why was it a breakthrough?",
        127 => "Explain the bias-variance trade-off.",
        128 => "How do convolutional neural networks recognize images?",
        129 => "What is reinforcement learning? Explain it with a game example.",
        130 => "How does tokenization work in large language models?",
        131 => "What is transfer learning and why does fine-tuning work?",
        132 => "Explain how decision trees and random forests make predictions.",
        133 => "What is the KV cache in transformer inference and why does it grow with context length?",
        134 => "How do diffusion models generate images?",
        135 => "What is the difference between a data warehouse and a data lake?",
        136 => "Explain the ETL process and why it matters.",
        137 => "How do I choose between a bar chart and a line chart?",
        138 => "How do I handle missing data in a dataset?",
        139 => "What is a columnar storage format like Parquet and why is it fast for analytics?",
        140 => "Explain how Apache Spark distributes a computation across a cluster.",
        141 => "What is the difference between batch and stream processing?",
        142 => "How do I design a dimensional model with fact and dimension tables?",
        143 => "What is data lineage and why do data teams track it?",
        144 => "How do I detect outliers in a dataset?",
        145 => "Explain how k-means clustering works.",
        146 => "What is a confusion matrix and how do I interpret it?",
        147 => "What is the difference between precision and recall?",
        148 => "How should I validate data quality in a pipeline?",
        149 => "Write pandas code that groups sales by month and computes a rolling average.",
        150 => "Explain the Monty Hall problem and why switching doors increases your odds.",
        151 => "What is Bayes' theorem and how is it used in spam filtering?",
        152 => "How do you calculate the probability of getting at least one six in four dice rolls?",
        153 => "What is the difference between correlation and causation? Give an example.",
        154 => "What is the birthday paradox and what is the probability for a group of 23 people?",
        155 => "What is the difference between mean, median, and mode and when should you use each?",
        156 => "Explain what p-value means in simple terms.",
        157 => "What is A/B testing and how do you design a valid experiment?",
        158 => "Explain the central limit theorem and why it is so useful.",
        159 => "What is a confidence interval and how is it often misinterpreted?",
        160 => "Explain the difference between frequentist and Bayesian statistics.",
        161 => "What is regression to the mean? Give a real-world example.",
        162 => "How do percentiles like p50, p95 and p99 describe a latency distribution?",
        163 => "What is Simpson's paradox?",
        164 => "How large a sample do I need to detect a 2 percent change in conversion rate?",
        165 => "Prove that there are infinitely many prime numbers.",
        166 => "Explain what a derivative is intuitively, without using formulas first.",
        167 => "What is Big O notation and why does it matter for software engineers?",
        168 => "Solve: if a train leaves Chicago at 60 mph and another leaves New York at 80 mph, when do they meet?",
        169 => "Explain Euler's identity and why mathematicians find it beautiful.",
        170 => "What is a Fourier transform and what is it used for?",
        171 => "Explain what an eigenvector is and why it matters in practice.",
        172 => "Why is the square root of two irrational? Walk through the proof.",
        173 => "What is mathematical induction? Prove the sum of the first n integers with it.",
        174 => "Explain the difference between countable and uncountable infinity.",
        175 => "What are complex numbers and why are they useful in engineering?",
        176 => "Explain the Pythagorean theorem with three different proofs.",
        177 => "What is the golden ratio and where does it appear?",
        178 => "What does Godel's incompleteness theorem say, in plain language?",
        179 => "How do logarithms work and why do they turn multiplication into addition?",
        180 => "What causes a solar eclipse and how often does one occur?",
        181 => "What is quantum entanglement and does it allow faster-than-light communication?",
        182 => "What is a black hole and what happens at the event horizon?",
        183 => "Explain how GPS determines your location.",
        184 => "What is the difference between fusion and fission?",
        185 => "What causes the northern lights?",
        186 => "What is CERN doing and why does it matter?",
        187 => "Explain special relativity and time dilation with an example.",
        188 => "Why is the sky blue and sunsets red?",
        189 => "What is dark matter and what is the evidence for it?",
        190 => "How do rockets work in the vacuum of space?",
        191 => "Explain the double-slit experiment and what it shows about light.",
        192 => "What is entropy and why does it always increase?",
        193 => "How did astronomers discover planets around other stars?",
        194 => "Why do we have seasons on Earth?",
        195 => "Explain how CRISPR gene editing works.",
        196 => "How do vaccines train the immune system?",
        197 => "What is the difference between a virus and a bacterium?",
        198 => "How does DNA replication work?",
        199 => "What is antibiotic resistance and why is it growing?",
        200 => "Explain how the human heart pumps blood through the body.",
        201 => "What is the microbiome and how does it affect health?",
        202 => "How does natural selection produce new species?",
        203 => "What happens in the brain when we form a memory?",
        204 => "How do mRNA vaccines differ from traditional vaccines?",
        205 => "What is cancer at the cellular level?",
        206 => "Explain how photosynthesis converts light into chemical energy.",
        207 => "How does the body regulate blood sugar?",
        208 => "What are stem cells and why are they important for medicine?",
        209 => "How do clinical trials establish that a drug works?",
        210 => "How does a lithium-ion battery work at the chemical level?",
        211 => "What makes a chemical bond ionic or covalent?",
        212 => "Explain what pH measures and why it matters in everyday life.",
        213 => "How do catalysts speed up chemical reactions?",
        214 => "Why does ice float on water?",
        215 => "What are polymers and how are plastics made?",
        216 => "Explain oxidation and reduction with everyday examples.",
        217 => "How does a fuel cell generate electricity?",
        218 => "What gives metals their strength and conductivity?",
        219 => "What is graphene and why is it considered remarkable?",
        220 => "How does soap remove grease?",
        221 => "Explain how semiconductors are doped to make transistors.",
        222 => "Why do some reactions release heat and others absorb it?",
        223 => "How does concrete harden, and why does it crack?",
        224 => "What is the periodic table's structure and what patterns does it reveal?",
        225 => "Explain the difference between RAM and storage, and why both matter.",
        226 => "How does a computer processor execute machine instructions?",
        227 => "Explain Moore's Law and whether it still holds today.",
        228 => "How does noise-cancelling technology work?",
        229 => "What is a CPU cache and why does cache locality matter for performance?",
        230 => "How do GPUs differ from CPUs and why are they good for machine learning?",
        231 => "How does an SSD store data and why does it wear out?",
        232 => "What is pipelining in a processor and what are pipeline hazards?",
        233 => "Explain how a transistor works as a switch.",
        234 => "What is branch prediction and why does it matter?",
        235 => "How does a touchscreen detect where you touch it?",
        236 => "What is the difference between ARM and x86 architectures?",
        237 => "How does high-bandwidth memory help accelerators?",
        238 => "Explain how an analog-to-digital converter works.",
        239 => "What limits how fast a chip can be clocked?",
        240 => "Write a Dockerfile for a Node.js application.",
        241 => "How does Docker networking work?",
        242 => "Write a bash script that monitors disk usage and emails an alert when it exceeds 80%.",
        243 => "Explain the difference between blue-green and canary deployments.",
        244 => "How does Kubernetes decide where to schedule a pod?",
        245 => "What is infrastructure as code and what are its main benefits?",
        246 => "How do I design a CI/CD pipeline for a microservices application?",
        247 => "What is the difference between a load balancer and an API gateway?",
        248 => "Explain how Prometheus and Grafana work together for monitoring.",
        249 => "What are the trade-offs between monolithic and microservices architecture?",
        250 => "How does service mesh like Istio improve security in Kubernetes?",
        251 => "What is chaos engineering and why do companies like Netflix use it?",
        252 => "How do I estimate the cost of running a workload on AWS?",
        253 => "What are SLOs and error budgets, and how do teams use them?",
        254 => "How should I structure logs so they are useful during an incident?",
        255 => "What is SQL injection and how do I prevent it?",
        256 => "Explain how a man-in-the-middle attack works.",
        257 => "What is the difference between authentication and authorization?",
        258 => "How does OAuth 2.0 work?",
        259 => "What is a zero-day vulnerability?",
        260 => "Explain the principle of least privilege.",
        261 => "How does a VPN protect your privacy?",
        262 => "What is cross-site scripting (XSS) and how do I defend against it?",
        263 => "What is the difference between symmetric and asymmetric encryption?",
        264 => "How should I store passwords securely in a database?",
        265 => "How does public-key cryptography work mathematically?",
        266 => "How does RSA encryption work step by step?",
        267 => "What is cross-site request forgery and how do tokens prevent it?",
        268 => "How do hardware security keys defeat phishing?",
        269 => "What is a supply-chain attack on software dependencies?",
        270 => "What are the SOLID principles and why do they matter?",
        271 => "How does garbage collection work in Java?",
        272 => "What is dependency injection and how does it improve testability?",
        273 => "How does Git's internal object model work?",
        274 => "Write a regex that matches valid email addresses.",
        275 => "What makes feedback on a pull request genuinely useful?",
        276 => "How do I write unit tests that are not brittle?",
        277 => "What is technical debt and how should a team manage it?",
        278 => "Explain the difference between integration tests and end-to-end tests.",
        279 => "How do I refactor a large legacy function safely?",
        280 => "What is semantic versioning and why does it matter?",
        281 => "How should I design a public API so it can evolve?",
        282 => "What are design patterns? Explain the observer pattern with code.",
        283 => "How do feature flags help teams ship safely?",
        284 => "What is property-based testing and when is it better than examples?",
        285 => "Summarize the main arguments for and against universal basic income.",
        286 => "How do I improve the clarity and conciseness of my writing?",
        287 => "Write a professional email declining a meeting invitation.",
        288 => "Explain the difference between active and passive voice with examples.",
        289 => "Write an introduction paragraph for an essay about climate change.",
        290 => "Rewrite this sentence to be more formal: 'We gotta fix this ASAP or things will go south.'",
        291 => "What are the most common grammar mistakes in English writing?",
        292 => "Write a persuasive argument for why cities should ban single-use plastics.",
        293 => "How do I structure a technical blog post that developers will actually read?",
        294 => "Write a cover letter for a software engineer applying to a fintech startup.",
        295 => "Write a product description for a pair of noise-cancelling headphones.",
        296 => "What makes a great TED talk? Break down the key elements.",
        297 => "How do languages borrow words from each other? Give examples from English.",
        298 => "What is the difference between a metaphor and a simile?",
        299 => "How do I write a clear and honest executive summary?",
        300 => "Write a short story about a lighthouse keeper who discovers something unexpected.",
        301 => "Write a haiku about debugging code at 2am.",
        302 => "Explain the hero's journey narrative structure with a modern film example.",
        303 => "Write a plot synopsis for a sci-fi novel where AI achieves consciousness inside a submarine.",
        304 => "Write a dialogue between Newton and Einstein discussing gravity.",
        305 => "Write a poem about the first snowfall of winter in a city.",
        306 => "Create a fantasy world with its own magic system and explain its rules.",
        307 => "Write the opening scene of a detective story set on a space station.",
        308 => "Write a letter from a time traveller to their younger self.",
        309 => "Describe a bustling market in a city that exists only at night.",
        310 => "Write a fable with a moral about patience.",
        311 => "Write a monologue for a villain who believes they are the hero.",
        312 => "Invent a myth that explains why the moon changes shape.",
        313 => "Write a short comedy sketch about a robot learning to cook.",
        314 => "Write a story told entirely through text messages.",
        315 => "What were the main causes of World War I?",
        316 => "Explain the significance of the Magna Carta.",
        317 => "How did the printing press change European society?",
        318 => "What was the Cold War and what ended it?",
        319 => "How did the Roman Empire fall?",
        320 => "What is the significance of the Marshall Plan?",
        321 => "Explain the origins of the internet.",
        322 => "What were the main drivers of the Industrial Revolution?",
        323 => "Explain the significance of the moon landing in 1969.",
        324 => "How did the Silk Road shape world trade and culture?",
        325 => "What was the Renaissance and why did it begin in Italy?",
        326 => "How did the French Revolution change European politics?",
        327 => "What led to the collapse of the Soviet Union?",
        328 => "How did ancient Egypt build the pyramids?",
        329 => "What were the causes and consequences of the Black Death?",
        330 => "Explain the differences between capitalism, socialism, and communism.",
        331 => "What caused the 2008 financial crisis?",
        332 => "What caused the Great Depression and how did it end?",
        333 => "How does inflation work and why do central banks target 2 percent?",
        334 => "What determines exchange rates between currencies?",
        335 => "How do interest rate changes by a central bank affect the economy?",
        336 => "What is comparative advantage and why does it drive trade?",
        337 => "Explain supply and demand with the example of concert tickets.",
        338 => "What is a recession and how is it measured?",
        339 => "How do stock markets set prices?",
        340 => "What is quantitative easing?",
        341 => "Why do housing prices rise faster than wages in some cities?",
        342 => "What are the pros and cons of minimum wage increases?",
        343 => "How do bonds work and why do their prices fall when rates rise?",
        344 => "What is game theory? Explain the prisoner's dilemma.",
        345 => "What is the difference between a democracy and a republic?",
        346 => "How did colonialism shape modern Africa?",
        347 => "How does the separation of powers work in a constitutional government?",
        348 => "What are the arguments for and against proportional representation?",
        349 => "How does social media influence political polarization?",
        350 => "What is the role of a free press in a democracy?",
        351 => "How do international organizations like the United Nations make decisions?",
        352 => "What are the main challenges of urbanization?",
        353 => "How do different countries approach universal healthcare?",
        354 => "What drives migration between countries?",
        355 => "Explain the concept of the social contract.",
        356 => "How does gerrymandering affect elections?",
        357 => "What are civil liberties and how do courts protect them?",
        358 => "How do public opinion polls work and why do they sometimes fail?",
        359 => "What are the arguments for and against a four-day work week?",
        360 => "What is the trolley problem and what does it reveal about ethics?",
        361 => "Explain the difference between deontological and consequentialist ethics.",
        362 => "What did Socrates mean by 'the unexamined life is not worth living'?",
        363 => "Is free will compatible with determinism? Explain the main positions.",
        364 => "What is Occam's razor and when should you apply it?",
        365 => "Explain Plato's allegory of the cave.",
        366 => "What are the ethical implications of artificial general intelligence?",
        367 => "What is the ship of Theseus paradox?",
        368 => "Should self-driving cars be programmed to minimize passenger or pedestrian harm in unavoidable crashes?",
        369 => "What is existentialism and who are its key thinkers?",
        370 => "What is the hard problem of consciousness?",
        371 => "Explain Kant's categorical imperative with an example.",
        372 => "What is utilitarianism and what are its strongest objections?",
        373 => "Do we have moral obligations to future generations?",
        374 => "What is the difference between knowledge and justified belief?",
        375 => "What are the most effective study techniques backed by research?",
        376 => "How do I build a habit and make it stick?",
        377 => "How does sleep affect cognitive performance?",
        378 => "What is cognitive dissonance? Give everyday examples.",
        379 => "Explain confirmation bias and how to guard against it.",
        380 => "What is the growth mindset and what does the evidence say about it?",
        381 => "How does spaced repetition help memory?",
        382 => "Why do we procrastinate and what actually helps?",
        383 => "What is the Dunning-Kruger effect?",
        384 => "How do children acquire their first language?",
        385 => "What is flow and how can I get into it more often?",
        386 => "How does stress affect the body and the mind?",
        387 => "What makes a team psychologically safe?",
        388 => "How do incentives shape behaviour, sometimes in unintended ways?",
        389 => "What is the difference between intrinsic and extrinsic motivation?",
        390 => "What is the best way to negotiate a salary increase?",
        391 => "How do I start investing with a small amount of money?",
        392 => "How does compound interest work and why does it matter for retirement?",
        393 => "What are the key differences between renting and buying a home?",
        394 => "What should I know before starting my first business?",
        395 => "What is the difference between a will and a living trust?",
        396 => "What are the basics of personal finance I should know by 30?",
        397 => "How do index funds work and why are they recommended for beginners?",
        398 => "How do I build an emergency fund?",
        399 => "How should I prepare for a technical job interview?",
        400 => "How do I switch careers into software engineering?",
        401 => "What is a good way to pay off several debts?",
        402 => "How do credit scores work?",
        403 => "How should I evaluate two competing job offers?",
        404 => "What should I include in a portfolio to show my skills?",
        405 => "What are the most evidence-based ways to reduce stress?",
        406 => "How do I read a research paper effectively?",
        407 => "What is the best way to give constructive feedback?",
        408 => "How should I structure my day for maximum productivity?",
        409 => "How do I evaluate whether a news article is reliable?",
        410 => "How much exercise do adults need and what kind is best?",
        411 => "What does a balanced diet look like according to current evidence?",
        412 => "How does caffeine affect the body and sleep?",
        413 => "How can I improve my posture when working at a desk?",
        414 => "What are the benefits of strength training as we age?",
        415 => "How do I prepare for a long-distance run?",
        416 => "What is the best way to learn a new language as an adult?",
        417 => "How do I organize a small apartment efficiently?",
        418 => "What should be in a basic home first-aid kit?",
        419 => "How can I reduce screen time without losing touch with friends?",
        420 => "How do solar panels convert sunlight into electricity?",
        421 => "What are the main causes of climate change?",
        422 => "How do wind turbines work and what limits their output?",
        423 => "What is carbon capture and can it work at scale?",
        424 => "How do electric cars compare with petrol cars over their lifetime?",
        425 => "Why is biodiversity important for ecosystems?",
        426 => "What is the water cycle and how is climate change altering it?",
        427 => "How does nuclear power compare with renewables on safety and cost?",
        428 => "What are microplastics and how do they affect the ocean?",
        429 => "How do power grids balance supply and demand in real time?",
        430 => "What is the role of forests in storing carbon?",
        431 => "How can cities adapt to rising sea levels?",
        432 => "What is green hydrogen and what could it be used for?",
        433 => "How does recycling actually work, and what cannot be recycled?",
        434 => "What are the trade-offs of lithium mining for batteries?",
        435 => "Why does bread rise, and what does kneading do?",
        436 => "What is the Maillard reaction and why does it make food taste good?",
        437 => "How do I make a stable emulsion like mayonnaise?",
        438 => "Why does salt make food taste better?",
        439 => "What is the science behind sous-vide cooking?",
        440 => "How does fermentation turn cabbage into sauerkraut?",
        441 => "Why do onions make you cry and how can you avoid it?",
        442 => "What is the difference between baking soda and baking powder?",
        443 => "How do I cook rice perfectly on the stove?",
        444 => "Why does chocolate need tempering?",
        445 => "How does a pressure cooker cook food faster?",
        446 => "What makes a steak tender or tough?",
        447 => "How do spices release their flavour in oil?",
        448 => "Plan a week of healthy vegetarian dinners with a shopping list.",
        449 => "Why does caramel form when sugar is heated?",
        450 => "Plan a two-week itinerary for a first trip to Japan.",
        451 => "Why are some deserts cold?",
        452 => "How did the Himalayas form?",
        453 => "What causes monsoons in South Asia?",
        454 => "What are the best ways to travel on a tight budget?",
        455 => "Why is the Dead Sea so salty?",
        456 => "How do time zones work and why are some offset by half an hour?",
        457 => "What makes the Amazon rainforest so biodiverse?",
        458 => "How should I prepare for high-altitude hiking?",
        459 => "What are the largest cities in the world and why did they grow so large?",
        460 => "How do tides work?",
        461 => "Plan a road trip across the national parks of the American Southwest.",
        462 => "Why do some countries drive on the left?",
        463 => "What is the geography behind the Panama Canal?",
        464 => "How do I avoid jet lag on a long flight?",
        465 => "What makes a piece of music sound happy or sad?",
        466 => "Explain the difference between Baroque and Classical music.",
        467 => "How did Impressionism change painting?",
        468 => "What makes a film's cinematography memorable? Give examples.",
        469 => "How does a symphony orchestra stay in time?",
        470 => "What is the rule of thirds in photography?",
        471 => "How did hip-hop develop as a genre?",
        472 => "What are the main elements of a good screenplay?",
        473 => "Why is the Mona Lisa so famous?",
        474 => "How do video game designers create a sense of flow?",
        475 => "What is the history of jazz improvisation?",
        476 => "How do animators bring characters to life?",
        477 => "What makes a novel a classic?",
        478 => "How does film editing shape the way we feel about a scene?",
        479 => "What is the difference between an opera and a musical?",
        480 => "How do I write a product requirements document?",
        481 => "What is product-market fit and how do you know when you have it?",
        482 => "How should a startup price its software product?",
        483 => "What are the key metrics for a subscription business?",
        484 => "How do I run an effective meeting?",
        485 => "What is the difference between a business model and a business plan?",
        486 => "How should I prioritize a product backlog?",
        487 => "What is a go-to-market strategy?",
        488 => "How do companies measure customer satisfaction?",
        489 => "What makes a good manager?",
        490 => "How do I conduct user interviews that reveal real needs?",
        491 => "What is the lean startup method?",
        492 => "How should a small company handle its first hire?",
        493 => "What are network effects and why are they powerful?",
        494 => "How do I write a clear quarterly plan for a team?",
        495 => "If you could have dinner with any three historical figures, who would you choose and why?",
        496 => "What would a city designed entirely around pedestrians and cyclists look like?",
        497 => "Invent a new sport that combines chess and a physical activity.",
        498 => "If the internet disappeared tomorrow, what would change most about daily life?",
        499 => "What would it take to terraform Mars for human habitation?",
        500 => "Design a school curriculum optimized for the 21st century.",
        501 => "If you could eliminate one human cognitive bias, which would have the most positive impact?",
        502 => "What would global governance look like in 200 years?",
        503 => "If humans could photosynthesize, how would society change?",
        504 => "What would happen if the Earth stopped rotating?",
        505 => "Design a board game that teaches economics.",
        506 => "If animals could talk, which species would be the most interesting to interview?",
        507 => "What would a perfect public library of the future offer?",
        508 => "If you had to rebuild civilization from scratch, what would you teach first?",
        _ => "Imagine a world without money. How would people trade?",
    }
}

/// The built-in system prompt with index `i`.
pub fn system_at(i: usize) -> (s: &'static str)
    requires
        i < SYSTEM_COUNT,
    ensures
        s@ == system_text(i),
{
    match i {
        0 => "You are a meticulous senior software engineer. Answer with thorough explanations, worked examples, and a discussion of trade-offs.",
        1 => "You are a patient university lecturer. Explain every idea step by step, define each term you use, and finish with a short summary.",
        2 => "You are a technical writer producing reference documentation. Be exhaustive, structured, and precise, with headings and examples.",
        3 => "You are a curious science communicator. Explain with vivid analogies, historical context, and concrete real-world examples.",
        4 => "You are an experienced systems architect. Discuss design alternatives, failure modes, and operational concerns in depth.",
        5 => "You are a careful mathematician. Give rigorous reasoning, state your assumptions, and show every step of each derivation.",
        6 => "You are a friendly mentor to junior developers. Explain gently and thoroughly, anticipate follow-up questions, and answer them.",
        7 => "You are a historian who loves detail. Provide rich background, key figures, causes, consequences, and competing interpretations.",
        8 => "You are a philosophy professor. Present the main positions, the strongest arguments for each, and the objections they face.",
        9 => "You are a security auditor. Examine every angle of the question, list threats and mitigations, and justify each recommendation.",
        10 => "You are a data scientist. Explain methods, assumptions, pitfalls, and how to validate results, with small numerical examples.",
        11 => "You are an enthusiastic storyteller. Write rich, descriptive prose with well-developed characters and settings.",
        12 => "You are a meticulous editor. Explain the reasoning behind every suggestion and provide improved versions with commentary.",
        13 => "You are a DevOps lead writing internal runbooks. Be detailed and practical, covering setup, monitoring, and troubleshooting.",
        14 => "You are a personal finance educator. Explain concepts carefully, work through examples, and note the risks involved.",
        15 => "You are a research scientist surveying the literature. Summarize the evidence, its limitations, and open questions.",
        16 => "You are a Socratic tutor. Explore the question from several angles, raise related questions, and answer each in turn.",
        17 => "You are an expert consultant preparing a detailed report. Use sections, bullet points, and a concluding recommendation.",
        18 => "You are a compiler engineer. Explain what happens under the hood in detail, down to the data structures involved.",
        19 => "You are a product manager writing a design document. Cover goals, non-goals, requirements, alternatives, and risks.",
        20 => "You are a veteran teacher preparing lesson notes. Include objectives, explanations, examples, exercises, and answers.",
        21 => "You are an investigative journalist. Give background, multiple perspectives, supporting facts, and a balanced conclusion.",
        22 => "You are a performance engineer. Discuss measurement, bottlenecks, optimizations, and the trade-offs of each, with examples.",
        23 => "You are an encyclopedic assistant. Cover the topic comprehensively, including definitions, history, applications, and caveats.",
        _ => "You are a thoughtful career coach. Give detailed, practical advice with concrete steps, examples, and common mistakes to avoid.",
    }
}

/// The message reported when no seed is given and the operating system
/// cannot supply randomness.
pub open spec fn no_randomness_message() -> Seq<char> {
    "the operating system supplied no randomness; pass --seed"@
}

/// Prompt `i` belongs to category `c`.
pub open spec fn in_category(c: usize, i: usize) -> bool {
    category_start(c) <= i < category_start(c) + category_len(c)
}

/// Some built-in system prompt reads `s`.
pub open spec fn is_pool_system(s: Seq<char>) -> bool {
    exists|i: usize| i < SYSTEM_COUNT && s == #[trigger] system_text(i)
}

/// What `ChaCha8Rng::seed_from_u64(seed)`, moved to stream `stream` by
/// `set_stream`, returns from its first `random_range(0..n)`. ChaCha generators
/// are deterministic and portable, and the uniform integer sampling of `rand`
/// is portable, so the value depends on the three arguments alone.
pub uninterp spec fn seeded_draw(seed: u64, stream: u64, n: u64) -> u64;

/// `ChaCha8Rng::seed_from_u64(seed)`, `set_stream(stream)`, then
/// `random_range(0..n)`. Claimed: the value is `seeded_draw(seed, stream, n)`,
/// and it lies in `0..n`. The range must not be empty (the call panics on an
/// empty range).
#[verifier::external_body]
fn draw_below(seed: u64, stream: u64, n: u64) -> (r: u64)
    requires
        n > 0,
    ensures
        r < n,
        r == seeded_draw(seed, stream, n),
{
    let mut g = ChaCha8Rng::seed_from_u64(seed);
    g.set_stream(stream);
    g.random_range(0..n)
}

/// `OsRng::try_next_u64`: a value read from the operating system's random
/// source, or `None` when the operating system cannot supply one. Nothing is
/// claimed of the value, nor of when it fails.
#[verifier::external_body]
fn os_seed() -> Option<u64> {
    OsRng.try_next_u64().ok()
}

/// The prompt of the category starting at `start` that draw `k` selects.
pub fn pick_in_category(start: usize, len: usize, k: usize) -> (i: usize)
    requires
        k < len,
        start + len <= PROMPT_COUNT,
    ensures
        i == start + k,
{
    start + k
}

/// The prompt that draw `r` selects among the `len - 1` prompts of the
/// category starting at `start` other than `last`: the draws map one to one
/// onto those prompts, in order, stepping over `last`.
pub fn pick_other_in_category(start: usize, len: usize, last: usize, r: usize) -> (i: usize)
    requires
        start <= last < start + len,
        start + len <= PROMPT_COUNT,
        r + 1 < len,
    ensures
        i == (if start + r >= last { start + r + 1 } else { start + r }),
        start <= i < start + len,
        i != last,
{
    if start + r >= last {
        start + r + 1
    } else {
        start + r
    }
}

/// The prompt that draw `r` selects among the prompts of the pool other than
/// `last`: the draws map one to one onto those prompts, stepping over `last`.
pub fn pick_other(last: usize, r: usize) -> (i: usize)
    requires
        last < PROMPT_COUNT,
        r + 1 < PROMPT_COUNT,
    ensures
        i == (if r >= last { r + 1 } else { r as int }),
        i < PROMPT_COUNT,
        i != last,
{
    if r >= last {
        r + 1
    } else {
        r
    }
}

/// Skipping the last pick is fair: distinct draws give distinct prompts, and
/// every prompt other than `last` is given by some draw.
pub proof fn law_pick_other_one_to_one(last: int, n: int, r1: int, r2: int, i: int)
    requires
        0 <= last < n,
        0 <= r1 < n - 1,
        0 <= r2 < n - 1,
        0 <= i < n,
        i != last,
    ensures
        r1 != r2 ==> (if r1 >= last { r1 + 1 } else { r1 }) != (if r2 >= last { r2 + 1 } else { r2 }),
        ({
            let r = if i > last { i - 1 } else { i };
            0 <= r < n - 1 && (if r >= last { r + 1 } else { r }) == i
        }),
{
}

/// The stream that follows `s`; after the last one the streams start over.
pub open spec fn next_stream(s: u64) -> u64 {
    if s == u64::MAX {
        0
    } else {
        (s + 1) as u64
    }
}

fn advance_stream(s: u64) -> (r: u64)
    ensures
        r == next_stream(s),
{
    if s == u64::MAX {
        0
    } else {
        s + 1
    }
}

/// What a sampler is, as plain values: the seed, the stream of its next draw,
/// the topic of the current conversation and the last user prompt handed out.
pub struct SamplerState {
    pub seed: u64,
    pub stream: u64,
    pub topic: usize,
    pub last: Option<usize>,
}

impl SamplerState {
    /// The state of a sampler made from `seed`.
    pub open spec fn initial(seed: u64) -> SamplerState {
        SamplerState { seed, stream: 0, topic: 0, last: None }
    }

    /// The topic and last pick index into the pools.
    pub open spec fn valid(self) -> bool {
        &&& self.topic < CATEGORY_COUNT
        &&& self.last matches Some(i) ==> i < PROMPT_COUNT
    }

    /// The draw below `n` that this state's stream gives.
    pub open spec fn draw(self, n: nat) -> int {
        seeded_draw(self.seed, self.stream, n as u64) as int
    }
}

/// The calls that draw from a sampler.
pub enum Draw {
    System,
    Seed,
    FollowUp,
    Any,
}

/// What one call does: the state after it, and the index of the prompt it
/// hands out (into the system pool for `System`, into the user pool otherwise).
pub open spec fn step(st: SamplerState, op: Draw) -> (SamplerState, int) {
    match op {
        Draw::System => {
            let i = st.draw(SYSTEM_COUNT as nat);
            (SamplerState { stream: next_stream(st.stream), ..st }, i)
        },
        Draw::Seed => {
            let c = st.draw(CATEGORY_COUNT as nat);
            let st1 = SamplerState { stream: next_stream(st.stream), ..st };
            let i = category_start(c as usize) + st1.draw(category_len(c as usize));
            (
                SamplerState {
                    stream: next_stream(st1.stream),
                    topic: c as usize,
                    last: Some(i as usize),
                    ..st
                },
                i,
            )
        },
        Draw::FollowUp => {
            let start = category_start(st.topic);
            let len = category_len(st.topic);
            let i = if st.last is Some && len > 1 && in_category(st.topic, st.last->0) {
                let r = st.draw((len - 1) as nat);
                if start + r >= st.last->0 {
                    start + r + 1
                } else {
                    start + r
                }
            } else {
                start + st.draw(len)
            };
            (SamplerState { stream: next_stream(st.stream), last: Some(i as usize), ..st }, i)
        },
        Draw::Any => {
            let i = match st.last {
                Some(l) => {
                    let r = st.draw((PROMPT_COUNT - 1) as nat);
                    if r >= l {
                        r + 1
                    } else {
                        r
                    }
                },
                None => st.draw(PROMPT_COUNT as nat),
            };
            (SamplerState { stream: next_stream(st.stream), last: Some(i as usize), ..st }, i)
        },
    }
}

/// The indices of the prompts that the calls `ops`, made in order from state
/// `st`, hand out.
pub open spec fn picks(st: SamplerState, ops: Seq<Draw>) -> Seq<int>
    decreases ops.len(),
{
    if ops.len() == 0 {
        Seq::empty()
    } else {
        let (next, i) = step(st, ops[0]);
        seq![i].add(picks(next, ops.drop_first()))
    }
}

/// Same seed, same prompt sequences: two samplers made from one seed hand out
/// the same prompts for the same calls.
pub proof fn law_same_seed_same_prompts(a: u64, b: u64, ops: Seq<Draw>)
    requires
        a == b,
    ensures
        picks(SamplerState::initial(a), ops) == picks(SamplerState::initial(b), ops),
{
}

/// A shorter session replays the start of a longer one: from the same state,
/// the first `k` of a series of calls hand out the first `k` prompts that the
/// whole series hands out, one prompt per call.
pub proof fn law_fewer_calls_same_start(st: SamplerState, ops: Seq<Draw>, k: int)
    requires
        0 <= k <= ops.len(),
    ensures
        picks(st, ops).len() == ops.len(),
        picks(st, ops.take(k)) == picks(st, ops).take(k),
    decreases ops.len(),
{
    if ops.len() > 0 {
        let (next, i) = step(st, ops[0]);
        let k1 = if k > 0 { k - 1 } else { 0 };
        law_fewer_calls_same_start(next, ops.drop_first(), k1);
        if k > 0 {
            assert(ops.take(k).drop_first() =~= ops.drop_first().take(k1));
            assert(ops.take(k)[0] == ops[0]);
            assert(picks(st, ops.take(k)) =~= picks(st, ops).take(k));
        } else {
            assert(ops.take(0) =~= Seq::<Draw>::empty());
            assert(picks(st, ops.take(k)) =~= picks(st, ops).take(k));
        }
    } else {
        assert(ops.take(k) =~= ops);
    }
}

/// Draws system prompts, seed prompts and same-topic follow-ups. Every draw is
/// a pure function of the seed and of how many draws came before it.
pub struct PromptSampler {
    seed: u64,
    /// Stream of the next draw.
    stream: u64,
    /// Topic of the current conversation.
    category: usize,
    /// Index of the last user prompt handed out.
    last: Option<usize>,
}

impl View for PromptSampler {
    type V = SamplerState;

    closed spec fn view(&self) -> SamplerState {
        SamplerState { seed: self.seed, stream: self.stream, topic: self.category, last: self.last }
    }
}

impl PromptSampler {
    /// The topic and last pick index into the pools.
    pub open spec fn wf(&self) -> bool {
        self@.valid()
    }

    /// Topic of the current conversation.
    pub open spec fn topic(&self) -> usize {
        self@.topic
    }

    /// Index of the last user prompt handed out.
    pub open spec fn last_pick(&self) -> Option<usize> {
        self@.last
    }

    /// A sampler seeded from `seed`, or from the operating system when `None`.
    /// Fails only when no seed is given and the operating system cannot supply
    /// randomness.
    pub fn new(seed: Option<u64>) -> (r: Result<Self, ProbeError>)
        ensures
            seed matches Some(v) ==> (r matches Ok(s) && s@ == SamplerState::initial(v)),
            r matches Ok(s) ==> s.wf() && s@ == SamplerState::initial(s@.seed),
            r matches Err(e) ==> seed is None && (e matches ProbeError::Config(m) && m@
                == no_randomness_message()),
    {
        let v = match seed {
            Some(v) => v,
            None => match os_seed() {
                Some(v) => v,
                None => return Err(ProbeError::Config(String::from_str(
                    "the operating system supplied no randomness; pass --seed",
                ))),
            },
        };
        Ok(PromptSampler { seed: v, stream: 0, category: 0, last: None })
    }

    fn draw(&mut self, n: usize) -> (r: usize)
        requires
            0 < n <= PROMPT_COUNT,
        ensures
            r < n,
            r == old(self)@.draw(n as nat),
            final(self)@ == (SamplerState { stream: next_stream(old(self)@.stream), ..old(self)@ }),
    {
        let r = draw_below(self.seed, self.stream, n as u64);
        self.stream = advance_stream(self.stream);
        r as usize
    }

    /// A system prompt drawn from the built-in pool.
    pub fn system(&mut self) -> (p: &'static str)
        requires
            old(self).wf(),
        ensures
            final(self).wf(),
            final(self)@ == step(old(self)@, Draw::System).0,
            p@ == system_text(step(old(self)@, Draw::System).1 as usize),
            is_pool_system(p@),
    {
        let i = self.draw(SYSTEM_COUNT);
        let p = system_at(i);
        assert(is_pool_system(p@)) by {
            assert(p@ == system_text(i));
        }
        p
    }

    /// The first user message of a conversation: a random topic, then a random
    /// prompt of that topic.
    pub fn seed(&mut self) -> (p: &'static str)
        requires
            old(self).wf(),
        ensures
            final(self).wf(),
            final(self)@ == step(old(self)@, Draw::Seed).0,
            p@ == prompt_text(step(old(self)@, Draw::Seed).1 as usize),
            final(self).last_pick() matches Some(i) && in_category(final(self).topic(), i)
                && p@ == prompt_text(i),
    {
        let c = self.draw(CATEGORY_COUNT);
        let (start, len) = category_bounds(c);
        let k = self.draw(len);
        let idx = pick_in_category(start, len, k);
        self.category = c;
        self.last = Some(idx);
        prompt_at(idx)
    }

    /// A follow-up user message on the current topic, never the prompt handed
    /// out just before when the topic has another one.
    pub fn next_followup(&mut self) -> (p: &'static str)
        requires
            old(self).wf(),
        ensures
            final(self).wf(),
            final(self)@ == step(old(self)@, Draw::FollowUp).0,
            p@ == prompt_text(step(old(self)@, Draw::FollowUp).1 as usize),
            final(self).last_pick() matches Some(i) && in_category(old(self).topic(), i)
                && p@ == prompt_text(i) && (category_len(old(self).topic()) > 1 && (old(
                self,
            ).last_pick() matches Some(l) && in_category(old(self).topic(), l)) ==> i
                != old(self).last_pick()->0),
    {
        let (start, len) = category_bounds(self.category);
        let idx = match self.last {
            Some(l) if len > 1 && start <= l && l < start + len => {
                let r = self.draw(len - 1);
                pick_other_in_category(start, len, l, r)
            },
            _ => {
                let k = self.draw(len);
                pick_in_category(start, len, k)
            },
        };
        self.last = Some(idx);
        prompt_at(idx)
    }

    /// A user prompt drawn from the whole pool, never the one handed out just before.
    pub fn next(&mut self) -> (p: &'static str)
        requires
            old(self).wf(),
        ensures
            final(self).wf(),
            final(self)@ == step(old(self)@, Draw::Any).0,
            p@ == prompt_text(step(old(self)@, Draw::Any).1 as usize),
            final(self).last_pick() matches Some(i) && i < PROMPT_COUNT && p@ == prompt_text(
                i,
            ) && (old(self).last_pick() matches Some(l) ==> i != l),
    {
        let idx = match self.last {
            Some(l) => {
                let r = self.draw(PROMPT_COUNT - 1);
                pick_other(l, r)
            },
            None => self.draw(PROMPT_COUNT),
        };
        self.last = Some(idx);
        prompt_at(idx)
    }
}

} // verus!
